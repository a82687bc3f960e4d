//! Six-digit identifiers for freshly created records: a random draw first,
//! then a deterministic scan, so that the result never collides with a
//! given set of already used identifiers.

use vstd::prelude::*;
use vstd::set_lib::{lemma_int_range, lemma_len_subset, set_int_range};

use crate::amount::{all_digits, char_of_digit, digit_char, digit_val, digits_val, is_dec_digit};
use crate::amount::{lemma_digits_val_bound, pow10};
use crate::text::{str_chars, string_from_chars};

verus! {

/// Relies on `rand::random_range`: a number drawn uniformly from the given
/// bounds, here between zero and 999 999 inclusive.
#[verifier::external_body]
fn random_six_digit_number() -> (r: u32)
    ensures
        r <= 999_999,
{
    rand::random_range(0..=999_999u32)
}

/// The six decimal digits of `n`, most significant first, padded with
/// leading zeros.
pub open spec fn six_digits(n: int) -> Seq<char> {
    seq![
        digit_char((n / 100_000) % 10),
        digit_char((n / 10_000) % 10),
        digit_char((n / 1_000) % 10),
        digit_char((n / 100) % 10),
        digit_char((n / 10) % 10),
        digit_char(n % 10),
    ]
}

/// The six-digit rendering of a number below one million consists of digit
/// characters and denotes the number itself.
pub proof fn lemma_six_digits_value(n: int)
    requires
        0 <= n < 1_000_000,
    ensures
        six_digits(n).len() == 6,
        all_digits(six_digits(n)),
        digits_val(six_digits(n)) == n,
{
    let s = six_digits(n);
    assert forall|d: int| 0 <= d < 10 implies digit_val(digit_char(d)) == d by {}
    assert forall|i: int| 0 <= i < s.len() implies is_dec_digit(#[trigger] s[i]) by {
        assert(0 <= (n / 100_000) % 10 < 10);
    }
    let c5 = digit_char((n / 100_000) % 10);
    let c4 = digit_char((n / 10_000) % 10);
    let c3 = digit_char((n / 1_000) % 10);
    let c2 = digit_char((n / 100) % 10);
    let c1 = digit_char((n / 10) % 10);
    assert(s.drop_last() =~= seq![c5, c4, c3, c2, c1]);
    assert(seq![c5, c4, c3, c2, c1].drop_last() =~= seq![c5, c4, c3, c2]);
    assert(seq![c5, c4, c3, c2].drop_last() =~= seq![c5, c4, c3]);
    assert(seq![c5, c4, c3].drop_last() =~= seq![c5, c4]);
    assert(seq![c5, c4].drop_last() =~= seq![c5]);
    assert(seq![c5].drop_last() =~= Seq::<char>::empty());
    assert(digits_val(Seq::<char>::empty()) == 0);
    assert(digits_val(seq![c5]) == digit_val(c5));
    assert(digits_val(seq![c5, c4]) == digit_val(c5) * 10 + digit_val(c4));
    assert(digits_val(seq![c5, c4, c3]) == digits_val(seq![c5, c4]) * 10 + digit_val(c3));
    assert(digits_val(seq![c5, c4, c3, c2]) == digits_val(seq![c5, c4, c3]) * 10 + digit_val(c2));
    assert(digits_val(seq![c5, c4, c3, c2, c1]) == digits_val(seq![c5, c4, c3, c2]) * 10
        + digit_val(c1));
    assert(digits_val(s) == digits_val(seq![c5, c4, c3, c2, c1]) * 10 + digit_val(s.last()));
    assert(n / 100_000 < 10);
    assert(n / 100_000 == (n / 100_000) % 10);
    assert(n / 10_000 == 10 * (n / 100_000) + (n / 10_000) % 10) by (nonlinear_arith)
        requires
            0 <= n < 1_000_000,
    ;
    assert(n / 1_000 == 10 * (n / 10_000) + (n / 1_000) % 10) by (nonlinear_arith)
        requires
            0 <= n < 1_000_000,
    ;
    assert(n / 100 == 10 * (n / 1_000) + (n / 100) % 10) by (nonlinear_arith)
        requires
            0 <= n < 1_000_000,
    ;
    assert(n / 10 == 10 * (n / 100) + (n / 10) % 10) by (nonlinear_arith)
        requires
            0 <= n < 1_000_000,
    ;
    assert(n == 10 * (n / 10) + n % 10) by (nonlinear_arith)
        requires
            0 <= n < 1_000_000,
    ;
}

/// Zero-padded six-digit rendering of a number below one million.
fn format_six_digits(n: u32) -> (s: String)
    requires
        n <= 999_999,
    ensures
        s@ == six_digits(n as int),
        s@.len() == 6,
        all_digits(s@),
{
    let mut v: Vec<char> = Vec::new();
    v.push(char_of_digit(((n / 100_000) % 10) as u8));
    v.push(char_of_digit(((n / 10_000) % 10) as u8));
    v.push(char_of_digit(((n / 1_000) % 10) as u8));
    v.push(char_of_digit(((n / 100) % 10) as u8));
    v.push(char_of_digit(((n / 10) % 10) as u8));
    v.push(char_of_digit((n % 10) as u8));
    proof {
        assert(v@ =~= six_digits(n as int));
        lemma_six_digits_value(n as int);
    }
    string_from_chars(&v)
}

/// `o` correctly describes `e`: it holds the value of `e` when `e` is a
/// string of exactly six decimal digits, and nothing otherwise.
pub open spec fn entry_described(o: Option<u32>, e: String) -> bool {
    match o {
        Some(x) => e@.len() == 6 && all_digits(e@) && digits_val(e@) == x && x < 1_000_000,
        None => !(e@.len() == 6 && all_digits(e@)),
    }
}

/// Reads an identifier entry as a number when it is a string of exactly six
/// decimal digits.
fn entry_number(e: &String) -> (r: Option<u32>)
    ensures
        entry_described(r, *e),
{
    let v = str_chars(e.as_str());
    if v.len() != 6 {
        return None;
    }
    let mut x: u32 = 0;
    let mut i: usize = 0;
    while i < 6
        invariant
            i <= 6,
            v@.len() == 6,
            v@ == e@,
            all_digits(v@.take(i as int)),
            x as int == digits_val(v@.take(i as int)),
            x < 1_000_000,
        decreases 6 - i,
    {
        let c = v[i];
        if !('0' <= c && c <= '9') {
            proof {
                assert(!is_dec_digit(e@[i as int]));
            }
            return None;
        }
        proof {
            crate::amount::lemma_digits_val_snoc(v@, i as int);
            assert(v@.take(i + 1 as int).take(i as int) =~= v@.take(i as int));
            lemma_digits_val_bound(v@.take(i + 1 as int));
            reveal_with_fuel(pow10, 7);
        }
        x = x * 10 + (c as u32 - 48);
        i = i + 1;
    }
    proof {
        assert(v@.take(6) =~= v@);
    }
    Some(x)
}

/// True when no described entry holds the number `x`.
fn number_free(nums: &Vec<Option<u32>>, x: u32) -> (b: bool)
    ensures
        b == (forall|j: int| 0 <= j < nums@.len() ==> nums@[j] != Some(x)),
{
    let mut j: usize = 0;
    while j < nums.len()
        invariant
            j <= nums@.len(),
            forall|k: int| 0 <= k < j ==> nums@[k] != Some(x),
        decreases nums@.len() - j,
    {
        match nums[j] {
            Some(y) => {
                if y == x {
                    return false;
                }
            },
            None => {},
        }
        j = j + 1;
    }
    true
}

/// A number that no entry holds yields an identifier string that differs
/// from every entry.
proof fn lemma_free_number_unused(nums: Seq<Option<u32>>, ids: Seq<String>, x: int)
    requires
        nums.len() == ids.len(),
        forall|j: int| 0 <= j < ids.len() ==> entry_described(nums[j], ids[j]),
        forall|j: int| 0 <= j < nums.len() ==> nums[j] != Some(x as u32),
        0 <= x < 1_000_000,
    ensures
        forall|j: int| 0 <= j < ids.len() ==> ids[j]@ != six_digits(x),
{
    lemma_six_digits_value(x);
    assert forall|j: int| 0 <= j < ids.len() implies ids[j]@ != six_digits(x) by {
        if ids[j]@ == six_digits(x) {
            assert(entry_described(nums[j], ids[j]));
            assert(ids[j]@.len() == 6 && all_digits(ids[j]@) && digits_val(ids[j]@) == x);
        }
    }
}

/// Produces a six-digit identifier that occurs nowhere in `existing_ids`:
/// a random one when it is already free, otherwise the smallest free one.
pub fn generate_unique_id(existing_ids: &Vec<String>) -> (r: String)
    requires
        existing_ids@.len() < 1_000_000,
    ensures
        r@.len() == 6,
        all_digits(r@),
        forall|i: int| 0 <= i < existing_ids@.len() ==> existing_ids@[i]@ != r@,
{
    let len = existing_ids.len();
    let mut nums: Vec<Option<u32>> = Vec::new();
    let mut i: usize = 0;
    while i < len
        invariant
            i <= len,
            len == existing_ids@.len(),
            nums@.len() == i,
            forall|j: int| 0 <= j < i ==> entry_described(nums@[j], existing_ids@[j]),
        decreases len - i,
    {
        nums.push(entry_number(&existing_ids[i]));
        i = i + 1;
    }
    let first = random_six_digit_number();
    if number_free(&nums, first) {
        proof {
            lemma_free_number_unused(nums@, existing_ids@, first as int);
        }
        return format_six_digits(first);
    }
    // Deterministic fallback: among the first `len + 1` candidate numbers
    // at least one is free, since each taken candidate is held by its own
    // distinct entry.
    let ghost mut matched: Set<int> = Set::empty();
    proof {
        assert(matched.finite() && matched.len() == 0);
    }
    let mut k: u32 = 0;
    while k <= len as u32
        invariant
            existing_ids@.len() == len < 1_000_000,
            nums@.len() == len,
            k <= len + 1,
            forall|j: int| 0 <= j < len ==> entry_described(nums@[j], existing_ids@[j]),
            matched.finite(),
            matched.len() == k,
            matched.subset_of(set_int_range(0, len as int)),
            forall|j: int|
                matched.contains(j) ==> nums@[j] is Some && (#[trigger] nums@[j])->0 < k,
        decreases len + 1 - k,
    {
        if number_free(&nums, k) {
            proof {
                lemma_free_number_unused(nums@, existing_ids@, k as int);
            }
            return format_six_digits(k);
        }
        proof {
            let j = choose|j: int| 0 <= j < len && nums@[j] == Some(k);
            assert(!matched.contains(j));
            matched = matched.insert(j);
        }
        k = k + 1;
    }
    proof {
        lemma_int_range(0, len as int);
        lemma_len_subset(matched, set_int_range(0, len as int));
    }
    vstd::pervasive::unreached()
}

} // verus!
