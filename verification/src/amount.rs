//! Fixed-point money values.
//!
//! Amounts are stored as an integer number of cents and exchanged with the
//! operator as decimal strings: an optional leading minus sign, an integer
//! part of one to fifteen digits, and optionally a dot followed by one or
//! two fractional digits.  Fifteen integer digits keep every representable
//! amount (and sums of a few of them) comfortably inside an `i64`.

use vstd::prelude::*;
use vstd::string::StrSliceExecFns;

use crate::text::{str_chars, string_from_chars};

verus! {

/// Largest magnitude of an amount in cents: fifteen integer digits plus two
/// fractional digits.
pub const AMOUNT_LIMIT: i64 = 99_999_999_999_999_999;

/// True for the ten decimal digit characters.
pub open spec fn is_dec_digit(c: char) -> bool {
    '0' <= c && c <= '9'
}

/// Numeric value of a decimal digit character.
pub open spec fn digit_val(c: char) -> int {
    c as int - '0' as int
}

/// Digit character for a value below ten.
pub open spec fn digit_char(d: int) -> char {
    if d == 0 {
        '0'
    } else if d == 1 {
        '1'
    } else if d == 2 {
        '2'
    } else if d == 3 {
        '3'
    } else if d == 4 {
        '4'
    } else if d == 5 {
        '5'
    } else if d == 6 {
        '6'
    } else if d == 7 {
        '7'
    } else if d == 8 {
        '8'
    } else {
        '9'
    }
}

/// Every character of `s` is a decimal digit.
pub open spec fn all_digits(s: Seq<char>) -> bool {
    forall|i: int| 0 <= i < s.len() ==> is_dec_digit(#[trigger] s[i])
}

/// Value of a sequence of decimal digit characters, most significant first.
pub open spec fn digits_val(s: Seq<char>) -> int
    decreases s.len(),
{
    if s.len() == 0 {
        0
    } else {
        digits_val(s.drop_last()) * 10 + digit_val(s.last())
    }
}

/// Ten to the `n`-th power.
pub open spec fn pow10(n: nat) -> int
    decreases n,
{
    if n == 0 {
        1
    } else {
        10 * pow10((n - 1) as nat)
    }
}

/// Index of the first dot of `b`, or `b.len()` when there is none.
pub open spec fn split_pos(b: Seq<char>) -> int
    decreases b.len(),
{
    if b.len() == 0 {
        0
    } else if b[0] == '.' {
        0
    } else {
        1 + split_pos(b.drop_first())
    }
}

/// Cents denoted by one or two fractional digit characters.
pub open spec fn frac_cents(f: Seq<char>) -> int {
    if f.len() == 1 {
        digit_val(f[0]) * 10
    } else {
        digit_val(f[0]) * 10 + digit_val(f[1])
    }
}

/// A well-formed unsigned amount string: one to fifteen integer digits,
/// optionally followed by a dot and one or two fractional digits.
pub open spec fn body_valid(b: Seq<char>) -> bool {
    let i = split_pos(b);
    &&& 1 <= i <= 15
    &&& all_digits(b.take(i))
    &&& (i == b.len() || (i + 2 <= b.len() <= i + 3 && all_digits(b.skip(i + 1))))
}

/// Cents denoted by a well-formed unsigned amount string.
pub open spec fn body_cents(b: Seq<char>) -> int {
    let i = split_pos(b);
    if i == b.len() {
        digits_val(b) * 100
    } else {
        digits_val(b.take(i)) * 100 + frac_cents(b.skip(i + 1))
    }
}

/// A well-formed amount string: an optional minus sign before a well-formed
/// unsigned amount string.
pub open spec fn amount_valid(s: Seq<char>) -> bool {
    if s.len() > 0 && s[0] == '-' {
        body_valid(s.skip(1))
    } else {
        body_valid(s)
    }
}

/// Cents denoted by a well-formed amount string.
pub open spec fn amount_cents(s: Seq<char>) -> int {
    if s.len() > 0 && s[0] == '-' {
        -body_cents(s.skip(1))
    } else {
        body_cents(s)
    }
}

/// The digits of `n` in decimal, most significant first, with no leading
/// zero except for `n == 0` itself.
pub open spec fn dec_digits(n: nat) -> Seq<char>
    decreases n,
{
    if n < 10 {
        seq![digit_char(n as int)]
    } else {
        dec_digits(n / 10).push(digit_char((n % 10) as int))
    }
}

/// Two-decimal-fixed rendering of an amount in cents: minus sign when
/// negative, the integer part, a dot, and exactly two fractional digits.
pub open spec fn amount_display(c: int) -> Seq<char> {
    if c < 0 {
        seq!['-'] + body_display(-c)
    } else {
        body_display(c)
    }
}

/// Two-decimal-fixed rendering of a nonnegative number of cents.
pub open spec fn body_display(n: int) -> Seq<char> {
    dec_digits((n / 100) as nat) + seq!['.', digit_char((n % 100) / 10), digit_char(n % 10)]
}

/// Any position whose prefix is dot-free and which sits on a dot or at the
/// end is the split position.
pub proof fn lemma_split_pos_unique(b: Seq<char>, i: int)
    requires
        0 <= i <= b.len(),
        forall|j: int| 0 <= j < i ==> b[j] != '.',
        i < b.len() ==> b[i] == '.',
    ensures
        split_pos(b) == i,
    decreases b.len(),
{
    if b.len() > 0 && b[0] != '.' {
        assert(i >= 1);
        let t = b.drop_first();
        assert(forall|j: int| 0 <= j < i - 1 ==> t[j] != '.');
        lemma_split_pos_unique(t, i - 1);
    }
}

/// Extending a digit string by one digit multiplies its value by ten and
/// adds the new digit.
pub proof fn lemma_digits_val_snoc(s: Seq<char>, i: int)
    requires
        0 <= i < s.len(),
    ensures
        digits_val(s.take(i + 1)) == digits_val(s.take(i)) * 10 + digit_val(s[i]),
{
    assert(s.take(i + 1).drop_last() =~= s.take(i));
    assert(s.take(i + 1).last() == s[i]);
}

/// A string of `n` digits denotes a value below ten to the `n`-th.
pub proof fn lemma_digits_val_bound(s: Seq<char>)
    requires
        all_digits(s),
    ensures
        0 <= digits_val(s) < pow10(s.len()),
    decreases s.len(),
{
    if s.len() > 0 {
        lemma_digits_val_bound(s.drop_last());
        assert(is_dec_digit(s[s.len() - 1]));
    }
}

/// Ten to the fifteenth, spelled out.
pub proof fn lemma_pow10_15()
    ensures
        pow10(15) == 1_000_000_000_000_000,
{
    reveal_with_fuel(pow10, 16);
}

/// The decimal digits of a number are digit characters, denote the number
/// itself, and are no more numerous than any power of ten that bounds it.
proof fn lemma_dec_digits(n: nat, k: nat)
    requires
        n < pow10(k),
        k >= 1,
    ensures
        all_digits(dec_digits(n)),
        digits_val(dec_digits(n)) == n,
        1 <= dec_digits(n).len() <= k,
    decreases n,
{
    assert forall|d: int| 0 <= d < 10 implies is_dec_digit(digit_char(d)) && digit_val(
        digit_char(d),
    ) == d by {}
    if n < 10 {
        let s = dec_digits(n);
        assert(s =~= seq![digit_char(n as int)]);
        assert(s.drop_last() =~= Seq::<char>::empty());
        assert(digits_val(Seq::<char>::empty()) == 0);
        assert(digits_val(s) == digit_val(s.last()));
        lemma_pow10_monotone(1, k);
    } else {
        let m = n / 10;
        assert(m < pow10((k - 1) as nat)) by {
            assert(pow10(k) == 10 * pow10((k - 1) as nat));
        }
        lemma_dec_digits(m, (k - 1) as nat);
        let s = dec_digits(n);
        assert(s == dec_digits(m).push(digit_char((n % 10) as int)));
        assert(s.drop_last() =~= dec_digits(m));
        assert forall|i: int| 0 <= i < s.len() implies is_dec_digit(#[trigger] s[i]) by {
            if i < s.len() - 1 {
                assert(s[i] == dec_digits(m)[i]);
            }
        }
        assert(digits_val(s) == digits_val(dec_digits(m)) * 10 + digit_val(s.last()));
        assert(digit_val(digit_char((n % 10) as int)) == n % 10);
    }
}

/// A two-decimal-fixed rendering is itself a well-formed amount string and
/// parses back to the same number of cents: an amount shown to the
/// operator passes the validation gate unchanged.
pub proof fn lemma_display_round_trip(c: int)
    requires
        -AMOUNT_LIMIT <= c <= AMOUNT_LIMIT,
    ensures
        amount_valid(amount_display(c)),
        amount_cents(amount_display(c)) == c,
{
    let m = if c < 0 {
        -c
    } else {
        c
    };
    lemma_body_display_round_trip(m);
    let b = body_display(m);
    lemma_split_pos_positive(b);
    if c < 0 {
        let s = amount_display(c);
        assert(s == seq!['-'] + b);
        assert(s[0] == '-');
        assert(s.skip(1) =~= b);
    } else {
        assert(amount_display(c) == b);
        assert(b[0] != '-') by {
            assert(is_dec_digit(b[0]));
        }
    }
}

/// The unsigned part of a rendering starts with a digit.
proof fn lemma_split_pos_positive(b: Seq<char>)
    requires
        body_valid(b),
    ensures
        b.len() > 0,
        is_dec_digit(b[0]),
{
    let i = split_pos(b);
    assert(b.take(i)[0] == b[0]);
}

/// A rendered nonnegative number of cents is a well-formed unsigned
/// amount string denoting the same cents.
proof fn lemma_body_display_round_trip(m: int)
    requires
        0 <= m <= AMOUNT_LIMIT,
    ensures
        body_valid(body_display(m)),
        body_cents(body_display(m)) == m,
{
    let whole = m / 100;
    let frac = m % 100;
    assert(whole < pow10(15)) by {
        lemma_pow10_15();
    }
    lemma_dec_digits(whole as nat, 15);
    let digits = dec_digits(whole as nat);
    let i = digits.len() as int;
    let b = body_display(m);
    assert(b == digits + seq!['.', digit_char(frac / 10), digit_char(m % 10)]);
    assert(b.len() == i + 3);
    assert forall|j: int| 0 <= j < i implies b[j] != '.' by {
        assert(b[j] == digits[j]);
        assert(is_dec_digit(digits[j]));
    }
    assert(b[i] == '.');
    lemma_split_pos_unique(b, i);
    assert(b.take(i) =~= digits);
    let f = b.skip(i + 1);
    assert(f =~= seq![digit_char(frac / 10), digit_char(m % 10)]);
    assert forall|j: int| 0 <= j < f.len() implies is_dec_digit(#[trigger] f[j]) by {
        assert(0 <= frac / 10 < 10);
        assert(0 <= m % 10 < 10);
        assert(j == 0 || j == 1);
    }
    assert(digit_val(digit_char(frac / 10)) == frac / 10);
    assert(digit_val(digit_char(m % 10)) == m % 10);
    assert(frac_cents(f) == (frac / 10) * 10 + m % 10);
    assert((m % 100) % 10 == m % 10) by (nonlinear_arith)
        requires
            m >= 0,
    ;
    assert(frac == (frac / 10) * 10 + frac % 10);
    assert(body_cents(b) == whole * 100 + frac);
}

/// Converts a digit character to its value.
fn digit_of(c: char) -> (d: u8)
    requires
        is_dec_digit(c),
    ensures
        d as int == digit_val(c),
{
    (c as u32 - '0' as u32) as u8
}

/// Converts a digit value to its character.
pub(crate) fn char_of_digit(d: u8) -> (c: char)
    requires
        d < 10,
    ensures
        c == digit_char(d as int),
{
    match d {
        0 => '0',
        1 => '1',
        2 => '2',
        3 => '3',
        4 => '4',
        5 => '5',
        6 => '6',
        7 => '7',
        8 => '8',
        _ => '9',
    }
}

/// Reads the value of the digit characters `v[from .. to]`, or reports the
/// first position holding something else.
fn digits_value(v: &Vec<char>, from: usize, to: usize) -> (r: Option<i64>)
    requires
        from <= to <= v@.len(),
        to - from <= 15,
    ensures
        r is Some <==> all_digits(v@.subrange(from as int, to as int)),
        r is Some ==> r->Some_0 as int == digits_val(v@.subrange(from as int, to as int))
            && 0 <= r->Some_0 < 1_000_000_000_000_000,
{
    let ghost s = v@.subrange(from as int, to as int);
    proof {
        lemma_pow10_monotone(0, 15);
    }
    let mut acc: i64 = 0;
    let mut i: usize = from;
    while i < to
        invariant
            from <= i <= to <= v@.len(),
            to - from <= 15,
            s == v@.subrange(from as int, to as int),
            all_digits(s.take(i - from)),
            acc as int == digits_val(s.take(i - from)),
            0 <= acc < pow10((i - from) as nat),
            pow10((i - from) as nat) <= pow10(15),
        decreases to - i,
    {
        let c = v[i];
        proof {
            assert(s[i - from] == v@[i as int]);
        }
        if !('0' <= c && c <= '9') {
            proof {
                assert(!is_dec_digit(s[i - from]));
            }
            return None;
        }
        let d = digit_of(c);
        proof {
            lemma_pow10_15();
            lemma_digits_val_snoc(s, i - from);
            assert(s.take(i - from + 1).take(i - from) =~= s.take(i - from));
            assert(pow10((i - from + 1) as nat) == 10 * pow10((i - from) as nat));
            lemma_pow10_monotone((i + 1 - from) as nat, 15);
        }
        acc = acc * 10 + d as i64;
        i = i + 1;
    }
    proof {
        assert(s.take(to - from) =~= s);
        lemma_pow10_15();
    }
    Some(acc)
}

/// Larger exponents give larger powers of ten.
pub proof fn lemma_pow10_monotone(a: nat, b: nat)
    requires
        a <= b,
    ensures
        pow10(a) <= pow10(b),
        pow10(a) >= 1,
    decreases b,
{
    if a < b {
        lemma_pow10_monotone(a, (b - 1) as nat);
    } else if b > 0 {
        lemma_pow10_monotone((a - 1) as nat, (b - 1) as nat);
    }
}

/// Parses a decimal amount string into cents.
///
/// Returns `Some` exactly on well-formed amount strings: an optional minus
/// sign, one to fifteen integer digits, and optionally a dot followed by
/// one or two fractional digits.
pub fn parse_amount(s: &str) -> (r: Option<i64>)
    ensures
        r is Some <==> amount_valid(s@),
        r is Some ==> r->Some_0 as int == amount_cents(s@),
        r is Some ==> -AMOUNT_LIMIT <= r->Some_0 <= AMOUNT_LIMIT,
{
    let v = str_chars(s);
    let n = v.len();
    let neg = n > 0 && v[0] == '-';
    let start: usize = if neg { 1 } else { 0 };
    let ghost b = s@.skip(start as int);
    proof {
        assert(b =~= v@.subrange(start as int, n as int));
        if neg {
            assert(s@[0] == v@[0]);
            assert(amount_valid(s@) == body_valid(b));
            assert(amount_cents(s@) == -body_cents(b));
        } else {
            assert(b =~= s@);
            if n > 0 {
                assert(s@[0] == v@[0]);
            }
            assert(amount_valid(s@) == body_valid(b));
            assert(amount_cents(s@) == body_cents(b));
        }
    }
    // Locate the first dot of the unsigned part.
    let mut dot: usize = start;
    while dot < n && v[dot] != '.'
        invariant
            start <= dot <= n,
            n == v@.len(),
            b == v@.subrange(start as int, n as int),
            forall|j: int| 0 <= j < dot - start ==> b[j] != '.',
        decreases n - dot,
    {
        proof {
            assert(b[dot - start] == v@[dot as int]);
        }
        dot = dot + 1;
    }
    proof {
        if dot < n {
            assert(b[dot - start] == v@[dot as int]);
        }
        lemma_split_pos_unique(b, dot - start);
    }
    let ilen = dot - start;
    if ilen < 1 || ilen > 15 {
        return None;
    }
    let int_part = match digits_value(&v, start, dot) {
        Some(x) => x,
        None => {
            proof {
                assert(b.take(ilen as int) =~= v@.subrange(start as int, dot as int));
            }
            return None;
        },
    };
    proof {
        assert(b.take(ilen as int) =~= v@.subrange(start as int, dot as int));
    }
    let frac: i64 = if dot == n {
        0
    } else {
        let flen = n - (dot + 1);
        if flen < 1 || flen > 2 {
            return None;
        }
        let c0 = v[dot + 1];
        proof {
            assert(b.skip(ilen + 1)[0] == v@[dot + 1]);
        }
        if !('0' <= c0 && c0 <= '9') {
            proof {
                assert(!is_dec_digit(b.skip(ilen + 1)[0]));
            }
            return None;
        }
        if flen == 2 {
            let c1 = v[dot + 2];
            proof {
                assert(b.skip(ilen + 1)[1] == v@[dot + 2]);
            }
            if !('0' <= c1 && c1 <= '9') {
                proof {
                    assert(!is_dec_digit(b.skip(ilen + 1)[1]));
                }
                return None;
            }
            proof {
                assert forall|j: int| 0 <= j < b.skip(ilen + 1).len() implies is_dec_digit(
                    #[trigger] b.skip(ilen + 1)[j],
                ) by {
                    assert(j == 0 || j == 1);
                }
            }
            digit_of(c0) as i64 * 10 + digit_of(c1) as i64
        } else {
            proof {
                assert forall|j: int| 0 <= j < b.skip(ilen + 1).len() implies is_dec_digit(
                    #[trigger] b.skip(ilen + 1)[j],
                ) by {
                    assert(j == 0);
                }
            }
            digit_of(c0) as i64 * 10
        }
    };
    let magnitude = int_part * 100 + frac;
    proof {
        assert(body_valid(b));
        assert(magnitude as int == body_cents(b));
    }
    if neg {
        Some(-magnitude)
    } else {
        proof {
            if n > 0 {
                assert(s@[0] == v@[0]);
            }
        }
        Some(magnitude)
    }
}

/// Renders a nonnegative number as decimal digits, most significant first.
fn push_dec_digits(out: &mut Vec<char>, n: i64)
    requires
        0 <= n,
    ensures
        final(out)@ == old(out)@ + dec_digits(n as nat),
    decreases n,
{
    if n < 10 {
        out.push(char_of_digit(n as u8));
        proof {
            assert(out@ =~= old(out)@ + dec_digits(n as nat));
        }
    } else {
        push_dec_digits(out, n / 10);
        out.push(char_of_digit((n % 10) as u8));
        proof {
            assert(out@ =~= old(out)@ + dec_digits(n as nat));
        }
    }
}

/// Renders an amount in cents in two-decimal-fixed form, such as `999.00`.
pub fn format_amount(cents: i64) -> (r: String)
    requires
        -AMOUNT_LIMIT <= cents <= AMOUNT_LIMIT,
    ensures
        r@ == amount_display(cents as int),
{
    let mut out: Vec<char> = Vec::new();
    let mag = if cents < 0 {
        out.push('-');
        -cents
    } else {
        cents
    };
    push_dec_digits(&mut out, mag / 100);
    out.push('.');
    out.push(char_of_digit(((mag % 100) / 10) as u8));
    out.push(char_of_digit((mag % 10) as u8));
    proof {
        if cents < 0 {
            assert(out@ =~= seq!['-'] + body_display(-(cents as int)));
        } else {
            assert(out@ =~= body_display(cents as int));
        }
    }
    string_from_chars(&out)
}

} // verus!
