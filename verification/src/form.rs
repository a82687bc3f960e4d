//! The field form engine: an ordered set of editable text fields with a
//! cycling cursor, character append and backspace, and a single validation
//! gate that materializes a domain record from the typed text.

use vstd::prelude::*;
use vstd::string::StringExecFns;

use crate::amount::{all_digits, amount_cents, amount_display, amount_valid, parse_amount};
use crate::clock::today_string;
use crate::ident::generate_unique_id;
use crate::models::{clone_items, Client, Invoice, Item};

verus! {

/// Number of editable fields of an invoice form.
pub const INVOICE_FIELDS: usize = 8;

/// Number of editable fields of a client form.
pub const CLIENT_FIELDS: usize = 4;

/// An editable, string-typed projection of an invoice, plus the candidate
/// clients against which the client reference is resolved on submit.
#[derive(Debug)]
pub struct InvoiceForm {
    pub code: String,
    pub client_email: String,
    pub total: String,
    pub currency: String,
    pub discount: String,
    pub tax: String,
    pub status: String,
    pub date: String,
    pub items: Vec<Item>,
    pub field_index: usize,
    pub clients: Vec<Client>,
    pub is_new: bool,
}

/// Index of the first client whose email equals `email`, or -1 when there
/// is none.
pub open spec fn first_client_match(cs: Seq<Client>, email: Seq<char>) -> int
    decreases cs.len(),
{
    if cs.len() == 0 {
        -1
    } else if cs[0].email@ == email {
        0
    } else {
        let r = first_client_match(cs.drop_first(), email);
        if r < 0 {
            -1
        } else {
            1 + r
        }
    }
}

/// A position whose prefix holds no matching email, and which holds one
/// itself, is the first match.
proof fn lemma_first_match_at(cs: Seq<Client>, email: Seq<char>, i: int)
    requires
        0 <= i < cs.len(),
        cs[i].email@ == email,
        forall|j: int| 0 <= j < i ==> cs[j].email@ != email,
    ensures
        first_client_match(cs, email) == i,
    decreases cs.len(),
{
    if cs.len() > 0 && cs[0].email@ != email {
        let t = cs.drop_first();
        assert(forall|j: int| 0 <= j < i - 1 ==> t[j].email@ != email);
        lemma_first_match_at(t, email, i - 1);
    }
}

/// When no email matches, there is no first match.
proof fn lemma_first_match_none(cs: Seq<Client>, email: Seq<char>)
    requires
        forall|j: int| 0 <= j < cs.len() ==> cs[j].email@ != email,
    ensures
        first_client_match(cs, email) == -1,
    decreases cs.len(),
{
    if cs.len() > 0 {
        let t = cs.drop_first();
        lemma_first_match_none(t, email);
    }
}

/// One editing operation on a text field.
pub enum EditOp {
    Append(char),
    Backspace,
}

/// The effect of one editing operation on a field's content: append adds
/// the character at the end, backspace removes the last character and is a
/// no-op on an empty field, never an underflow.
pub open spec fn apply_edit(s: Seq<char>, op: EditOp) -> Seq<char> {
    match op {
        EditOp::Append(c) => s.push(c),
        EditOp::Backspace => if s.len() == 0 {
            s
        } else {
            s.drop_last()
        },
    }
}

/// The content after a whole sequence of editing operations, applied in
/// order.  `update_field` and `backspace` each perform exactly one
/// [`apply_edit`] step on the active field, so a field's final content is
/// the replay of its operations in order.
pub open spec fn apply_edits(s: Seq<char>, ops: Seq<EditOp>) -> Seq<char>
    decreases ops.len(),
{
    if ops.len() == 0 {
        s
    } else {
        apply_edits(apply_edit(s, ops[0]), ops.drop_first())
    }
}

/// A backspace undoes the append it follows, and on an empty field it is
/// a no-op.
pub proof fn lemma_append_then_backspace(s: Seq<char>, c: char)
    ensures
        apply_edits(s, seq![EditOp::Append(c), EditOp::Backspace]) == s,
        apply_edit(Seq::<char>::empty(), EditOp::Backspace) == Seq::<char>::empty(),
{
    let ops = seq![EditOp::Append(c), EditOp::Backspace];
    let t = apply_edit(s, EditOp::Append(c));
    assert(ops.drop_first() =~= seq![EditOp::Backspace]);
    assert(seq![EditOp::Backspace].drop_first() =~= Seq::<EditOp>::empty());
    assert(apply_edits(s, ops) == apply_edits(t, seq![EditOp::Backspace]));
    assert(apply_edits(t, seq![EditOp::Backspace]) == apply_edits(
        apply_edit(t, EditOp::Backspace),
        Seq::<EditOp>::empty(),
    ));
    assert(s.push(c).drop_last() =~= s);
}

/// Every typed field parses and the client reference resolves: the form
/// can be converted into an invoice.
pub open spec fn conversion_ok(f: InvoiceForm) -> bool {
    &&& amount_valid(f.total@)
    &&& amount_valid(f.discount@)
    &&& amount_valid(f.tax@)
    &&& first_client_match(f.clients@, f.client_email@) >= 0
}

/// `inv` is exactly the invoice that the form converts to under
/// identifier `id`.
pub open spec fn matches_form(inv: Invoice, f: InvoiceForm, id: u32) -> bool {
    &&& inv.id == id
    &&& inv.code@ == f.code@
    &&& inv.client == f.clients@[first_client_match(f.clients@, f.client_email@)]
    &&& inv.total == amount_cents(f.total@)
    &&& inv.currency@ == f.currency@
    &&& inv.discount == amount_cents(f.discount@)
    &&& inv.tax == amount_cents(f.tax@)
    &&& inv.status@ == f.status@
    &&& inv.date@ == f.date@
    &&& inv.items@ == f.items@
    &&& inv.wf()
}

/// The shape of a freshly allocated new-record form: empty amount field,
/// defaults for currency, discount, tax and status, a fresh `INV-` code,
/// and the given candidate clients.
pub open spec fn new_form_shape(f: InvoiceForm, clients: Seq<Client>) -> bool {
    &&& f.is_new
    &&& f.field_index == 0
    &&& f.clients@ == clients
    &&& f.client_email@ == Seq::<char>::empty()
    &&& f.total@ == Seq::<char>::empty()
    &&& f.currency@ == "USD"@
    &&& f.discount@ == "0"@
    &&& f.tax@ == "0"@
    &&& f.status@ == "draft"@
    &&& f.items@ == Seq::<Item>::empty()
    &&& f.code@.len() == 10
    &&& f.code@.take(4) == "INV-"@
    &&& all_digits(f.code@.skip(4))
}

/// The shape of a form pre-populated from an existing invoice: every field
/// carries the display-formatted value of the record.
pub open spec fn edit_form_shape(f: InvoiceForm, inv: Invoice, clients: Seq<Client>) -> bool {
    &&& !f.is_new
    &&& f.field_index == 0
    &&& f.clients@ == clients
    &&& f.code@ == inv.code@
    &&& f.client_email@ == inv.client.email@
    &&& f.currency@ == inv.currency@
    &&& f.total@ == amount_display(inv.total as int)
    &&& f.discount@ == amount_display(inv.discount as int)
    &&& f.tax@ == amount_display(inv.tax as int)
    &&& f.status@ == inv.status@
    &&& f.date@ == inv.date@
    &&& f.items@ == inv.items@
}

/// The amount fields of a form pre-populated from a well-formed invoice
/// pass the validation gate unchanged, and denote the record's own
/// amounts: re-submitting an untouched edit form cannot fail on a number.
pub proof fn lemma_edit_form_amounts_valid(f: InvoiceForm, inv: Invoice, clients: Seq<Client>)
    requires
        edit_form_shape(f, inv, clients),
        inv.wf(),
    ensures
        amount_valid(f.total@) && amount_cents(f.total@) == inv.total,
        amount_valid(f.discount@) && amount_cents(f.discount@) == inv.discount,
        amount_valid(f.tax@) && amount_cents(f.tax@) == inv.tax,
{
    crate::amount::lemma_display_round_trip(inv.total as int);
    crate::amount::lemma_display_round_trip(inv.discount as int);
    crate::amount::lemma_display_round_trip(inv.tax as int);
}

impl InvoiceForm {
    /// The field cursor lies within the field count.
    pub open spec fn wf(&self) -> bool {
        self.field_index < INVOICE_FIELDS
    }

    /// The editable fields, in cursor order.
    pub open spec fn fields(&self) -> Seq<Seq<char>> {
        seq![
            self.code@,
            self.client_email@,
            self.currency@,
            self.total@,
            self.discount@,
            self.tax@,
            self.status@,
            self.date@,
        ]
    }

    /// Allocates a form for a new invoice: fresh unique code, draft
    /// status, default currency, the current date, and no items.
    pub fn new(clients: Vec<Client>) -> (f: InvoiceForm)
        ensures
            new_form_shape(f, clients@),
            f.wf(),
    {
        let existing_ids: Vec<String> = vec![String::from_str("278532")];
        let id = generate_unique_id(&existing_ids);
        let code = String::from_str("INV-").concat(id.as_str());
        proof {
            reveal_strlit("INV-");
            assert(code@.take(4) =~= "INV-"@);
            assert(code@.skip(4) =~= id@);
        }
        InvoiceForm {
            code,
            client_email: String::new(),
            currency: String::from_str("USD"),
            total: String::new(),
            discount: String::from_str("0"),
            tax: String::from_str("0"),
            status: String::from_str("draft"),
            date: today_string(),
            items: Vec::new(),
            field_index: 0,
            clients,
            is_new: true,
        }
    }

    /// Allocates a form pre-populated from an existing invoice, amounts
    /// rendered two-decimal-fixed.
    pub fn from_invoice(inv: &Invoice, clients: Vec<Client>) -> (f: InvoiceForm)
        requires
            inv.wf(),
        ensures
            edit_form_shape(f, *inv, clients@),
            f.wf(),
    {
        InvoiceForm {
            code: inv.code.clone(),
            client_email: inv.client.email.clone(),
            currency: inv.currency.clone(),
            total: crate::amount::format_amount(inv.total),
            discount: crate::amount::format_amount(inv.discount),
            tax: crate::amount::format_amount(inv.tax),
            status: inv.status.clone(),
            date: inv.date.clone(),
            items: clone_items(&inv.items),
            field_index: 0,
            clients,
            is_new: false,
        }
    }

    /// Advances the field cursor cyclically.
    pub fn next_field(&mut self)
        requires
            old(self).wf(),
        ensures
            final(self).wf(),
            *final(self) == (InvoiceForm {
                field_index: ((old(self).field_index + 1) % (INVOICE_FIELDS as int)) as usize,
                ..*old(self)
            }),
    {
        self.field_index = (self.field_index + 1) % INVOICE_FIELDS;
    }

    /// Appends one character to the field under the cursor.
    pub fn update_field(&mut self, c: char)
        ensures
            final(self).field_index == old(self).field_index,
            final(self).items == old(self).items,
            final(self).clients == old(self).clients,
            final(self).is_new == old(self).is_new,
            old(self).field_index < INVOICE_FIELDS ==> final(self).fields() == old(
                self,
            ).fields().update(
                old(self).field_index as int,
                apply_edit(
                    old(self).fields()[old(self).field_index as int],
                    EditOp::Append(c),
                ),
            ),
            old(self).field_index >= INVOICE_FIELDS ==> final(self).fields() == old(self).fields(),
    {
        let ghost pre = *self;
        match self.field_index {
            0 => self.code.push(c),
            1 => self.client_email.push(c),
            2 => self.currency.push(c),
            3 => self.total.push(c),
            4 => self.discount.push(c),
            5 => self.tax.push(c),
            6 => self.status.push(c),
            7 => self.date.push(c),
            _ => {},
        }
        proof {
            if pre.field_index < INVOICE_FIELDS {
                assert(self.fields() =~= pre.fields().update(
                    pre.field_index as int,
                    pre.fields()[pre.field_index as int].push(c),
                ));
            } else {
                assert(self.fields() =~= pre.fields());
            }
        }
    }

    /// Removes the last character of the field under the cursor; a no-op
    /// on an empty field.
    pub fn backspace(&mut self)
        ensures
            final(self).field_index == old(self).field_index,
            final(self).items == old(self).items,
            final(self).clients == old(self).clients,
            final(self).is_new == old(self).is_new,
            old(self).field_index < INVOICE_FIELDS ==> final(self).fields() == old(
                self,
            ).fields().update(
                old(self).field_index as int,
                apply_edit(old(self).fields()[old(self).field_index as int], EditOp::Backspace),
            ),
            old(self).field_index >= INVOICE_FIELDS ==> final(self).fields() == old(self).fields(),
    {
        let ghost pre = *self;
        match self.field_index {
            0 => {
                self.code.pop();
            },
            1 => {
                self.client_email.pop();
            },
            2 => {
                self.currency.pop();
            },
            3 => {
                self.total.pop();
            },
            4 => {
                self.discount.pop();
            },
            5 => {
                self.tax.pop();
            },
            6 => {
                self.status.pop();
            },
            7 => {
                self.date.pop();
            },
            _ => {},
        }
        proof {
            if pre.field_index < INVOICE_FIELDS && pre.fields()[pre.field_index as int].len() > 0 {
                assert(self.fields() =~= pre.fields().update(
                    pre.field_index as int,
                    pre.fields()[pre.field_index as int].drop_last(),
                ));
            } else {
                assert(self.fields() =~= pre.fields());
            }
        }
    }

    /// The single validation gate: parses every numeric field and resolves
    /// the client reference, and materializes the invoice exactly when all
    /// of that succeeds.
    #[verifier::loop_isolation(false)]
    pub fn to_invoice(&self, id: u32) -> (r: Option<Invoice>)
        ensures
            r is Some <==> conversion_ok(*self),
            r matches Some(inv) ==> matches_form(inv, *self, id),
    {
        let total = match parse_amount(self.total.as_str()) {
            Some(t) => t,
            None => {
                return None;
            },
        };
        let discount = match parse_amount(self.discount.as_str()) {
            Some(d) => d,
            None => {
                return None;
            },
        };
        let tax = match parse_amount(self.tax.as_str()) {
            Some(t) => t,
            None => {
                return None;
            },
        };
        let mut k: usize = 0;
        while k < self.clients.len()
            invariant
                k <= self.clients@.len(),
                forall|j: int| 0 <= j < k ==> self.clients@[j].email@ != self.client_email@,
            decreases self.clients@.len() - k,
        {
            if self.clients[k].email.eq(&self.client_email) {
                proof {
                    lemma_first_match_at(self.clients@, self.client_email@, k as int);
                }
                let client = &self.clients[k];
                return Some(
                    Invoice::new(
                        id,
                        self.code.as_str(),
                        client,
                        self.currency.as_str(),
                        total,
                        discount,
                        tax,
                        self.status.as_str(),
                        self.date.as_str(),
                        clone_items(&self.items),
                    ),
                );
            }
            k = k + 1;
        }
        proof {
            lemma_first_match_none(self.clients@, self.client_email@);
        }
        None
    }
}

/// One step of the cycling field cursor over `n` fields.
pub open spec fn cursor_step(i: int, n: int) -> int {
    (i + 1) % n
}

/// The field cursor after `k` steps.
pub open spec fn cursor_after(i: int, k: nat, n: int) -> int
    decreases k,
{
    if k == 0 {
        i
    } else {
        cursor_step(cursor_after(i, (k - 1) as nat, n), n)
    }
}

/// Stepping the cursor `k` times moves it `k` places around the cycle.
proof fn lemma_cursor_after_add(i: int, k: nat, n: int)
    requires
        n > 0,
        0 <= i < n,
    ensures
        cursor_after(i, k, n) == (i + k) % n,
    decreases k,
{
    if k > 0 {
        lemma_cursor_after_add(i, (k - 1) as nat, n);
        assert((((i + k - 1) % n) + 1) % n == (i + k) % n) by (nonlinear_arith)
            requires
                n > 0,
                k >= 1,
        ;
    } else {
        assert(i % n == i) by (nonlinear_arith)
            requires
                n > 0,
                0 <= i < n,
        ;
    }
}

/// Cycling the field cursor as many times as the form has fields returns
/// it to its starting position.  `InvoiceForm::next_field` and
/// `ClientForm::next_field` each perform exactly one such step.
pub proof fn lemma_cursor_full_cycle(i: int, n: int)
    requires
        n > 0,
        0 <= i < n,
    ensures
        cursor_after(i, n as nat, n) == i,
{
    lemma_cursor_after_add(i, n as nat, n);
    assert((i + n) % n == i) by (nonlinear_arith)
        requires
            n > 0,
            0 <= i < n,
    ;
}

/// An editable, string-typed projection of a client.
#[derive(Debug)]
pub struct ClientForm {
    pub name: String,
    pub email: String,
    pub phone: String,
    pub address: String,
    pub field_index: usize,
}

impl ClientForm {
    /// The field cursor lies within the field count.
    pub open spec fn wf(&self) -> bool {
        self.field_index < CLIENT_FIELDS
    }

    /// The editable fields, in cursor order.
    pub open spec fn fields(&self) -> Seq<Seq<char>> {
        seq![self.name@, self.email@, self.phone@, self.address@]
    }

    /// Allocates an empty client form.  The candidate list is accepted for
    /// symmetry with the invoice form and not consulted.
    pub fn new(clients: Vec<Client>) -> (f: ClientForm)
        ensures
            f.field_index == 0,
            f.name@ == Seq::<char>::empty(),
            f.email@ == Seq::<char>::empty(),
            f.phone@ == Seq::<char>::empty(),
            f.address@ == Seq::<char>::empty(),
            f.wf(),
    {
        let _ = clients;
        ClientForm {
            name: String::new(),
            email: String::new(),
            phone: String::new(),
            address: String::new(),
            field_index: 0,
        }
    }

    /// Allocates a form pre-populated from an existing client.
    pub fn from_client(client: &Client) -> (f: ClientForm)
        ensures
            f.field_index == 0,
            f.name@ == client.name@,
            f.email@ == client.email@,
            f.phone@ == client.phone@,
            f.address@ == client.address@,
            f.wf(),
    {
        ClientForm {
            name: client.name.clone(),
            email: client.email.clone(),
            phone: client.phone.clone(),
            address: client.address.clone(),
            field_index: 0,
        }
    }

    /// Advances the field cursor cyclically.
    pub fn next_field(&mut self)
        requires
            old(self).wf(),
        ensures
            final(self).wf(),
            *final(self) == (ClientForm {
                field_index: ((old(self).field_index + 1) % (CLIENT_FIELDS as int)) as usize,
                ..*old(self)
            }),
    {
        self.field_index = (self.field_index + 1) % CLIENT_FIELDS;
    }

    /// Appends one character to the field under the cursor.
    pub fn update_field(&mut self, c: char)
        ensures
            final(self).field_index == old(self).field_index,
            old(self).field_index < CLIENT_FIELDS ==> final(self).fields() == old(
                self,
            ).fields().update(
                old(self).field_index as int,
                apply_edit(
                    old(self).fields()[old(self).field_index as int],
                    EditOp::Append(c),
                ),
            ),
            old(self).field_index >= CLIENT_FIELDS ==> final(self).fields() == old(self).fields(),
    {
        let ghost pre = *self;
        match self.field_index {
            0 => self.name.push(c),
            1 => self.email.push(c),
            2 => self.phone.push(c),
            3 => self.address.push(c),
            _ => {},
        }
        proof {
            if pre.field_index < CLIENT_FIELDS {
                assert(self.fields() =~= pre.fields().update(
                    pre.field_index as int,
                    pre.fields()[pre.field_index as int].push(c),
                ));
            } else {
                assert(self.fields() =~= pre.fields());
            }
        }
    }

    /// Removes the last character of the field under the cursor; a no-op
    /// on an empty field.
    pub fn backspace(&mut self)
        ensures
            final(self).field_index == old(self).field_index,
            old(self).field_index < CLIENT_FIELDS ==> final(self).fields() == old(
                self,
            ).fields().update(
                old(self).field_index as int,
                apply_edit(old(self).fields()[old(self).field_index as int], EditOp::Backspace),
            ),
            old(self).field_index >= CLIENT_FIELDS ==> final(self).fields() == old(self).fields(),
    {
        let ghost pre = *self;
        match self.field_index {
            0 => {
                self.name.pop();
            },
            1 => {
                self.email.pop();
            },
            2 => {
                self.phone.pop();
            },
            3 => {
                self.address.pop();
            },
            _ => {},
        }
        proof {
            if pre.field_index < CLIENT_FIELDS && pre.fields()[pre.field_index as int].len() > 0 {
                assert(self.fields() =~= pre.fields().update(
                    pre.field_index as int,
                    pre.fields()[pre.field_index as int].drop_last(),
                ));
            } else {
                assert(self.fields() =~= pre.fields());
            }
        }
    }

    /// Materializes a client record from the typed fields.  Text fields
    /// need no parsing, so conversion always succeeds.
    pub fn to_client(&self, id: u32) -> (r: Option<Client>)
        ensures
            r matches Some(c) && c.id == id && c.name@ == self.name@ && c.email@ == self.email@
                && c.phone@ == self.phone@ && c.address@ == self.address@,
    {
        Some(
            Client::new(
                id,
                self.name.as_str(),
                self.phone.as_str(),
                self.email.as_str(),
                self.address.as_str(),
            ),
        )
    }
}

} // verus!
