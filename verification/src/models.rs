//! Domain records: clients, invoice line items, and invoices.
//!
//! Money fields hold an integer number of cents (see `amount`); the net
//! total of an invoice is derived on demand and never stored.

use vstd::prelude::*;
use vstd::string::StringExecFns;

use crate::amount::AMOUNT_LIMIT;

verus! {

/// A customer record.  Identity is the `id` field.
#[derive(Debug)]
pub struct Client {
    pub id: u32,
    pub name: String,
    pub phone: String,
    pub email: String,
    pub address: String,
}

impl Client {
    /// Builds a client from its attributes.
    pub fn new(id: u32, name: &str, phone: &str, email: &str, address: &str) -> (c: Client)
        ensures
            c.id == id,
            c.name@ == name@,
            c.phone@ == phone@,
            c.email@ == email@,
            c.address@ == address@,
    {
        Client {
            id,
            name: name.to_owned(),
            phone: phone.to_owned(),
            email: email.to_owned(),
            address: address.to_owned(),
        }
    }

    /// The sentinel client returned when no real record is selected.
    pub fn default() -> (c: Client)
        ensures
            c.id == 0,
            c.name@ == "empty_client"@,
            c.phone@ == Seq::<char>::empty(),
            c.email@ == Seq::<char>::empty(),
            c.address@ == Seq::<char>::empty(),
    {
        Client {
            id: 0,
            name: String::from_str("empty_client"),
            phone: String::new(),
            email: String::new(),
            address: String::new(),
        }
    }
}

impl Clone for Client {
    /// A clone is equal to the original, field for field.
    fn clone(&self) -> (c: Client)
        ensures
            c == *self,
    {
        Client {
            id: self.id,
            name: self.name.clone(),
            phone: self.phone.clone(),
            email: self.email.clone(),
            address: self.address.clone(),
        }
    }
}

/// One line of an invoice; owned by exactly one invoice.
#[derive(Debug)]
pub struct Item {
    pub id: u32,
    pub title: String,
    pub price: Option<i64>,
    pub quantity: Option<u32>,
    pub remark: Option<String>,
}

impl Item {
    /// Builds a line item; the price is in cents.
    pub fn new(
        title: &str,
        price: Option<i64>,
        quantity: Option<u32>,
        remark: Option<String>,
    ) -> (it: Item)
        ensures
            it.id == 1,
            it.title@ == title@,
            it.price == price,
            it.quantity == quantity,
            it.remark == remark,
    {
        Item { id: 1, title: title.to_owned(), price, quantity, remark }
    }
}

impl Clone for Item {
    /// A clone is equal to the original, field for field.
    fn clone(&self) -> (it: Item)
        ensures
            it == *self,
    {
        Item {
            id: self.id,
            title: self.title.clone(),
            price: self.price,
            quantity: self.quantity,
            remark: match &self.remark {
                Some(r) => Some(r.clone()),
                None => None,
            },
        }
    }
}

/// Copies a vector of items; the copy holds the same items in the same
/// order.
pub fn clone_items(items: &Vec<Item>) -> (r: Vec<Item>)
    ensures
        r@ == items@,
{
    let mut r: Vec<Item> = Vec::new();
    let mut i: usize = 0;
    while i < items.len()
        invariant
            i <= items@.len(),
            r@ == items@.take(i as int),
        decreases items@.len() - i,
    {
        r.push(items[i].clone());
        proof {
            assert(items@.take(i + 1 as int) =~= items@.take(i as int).push(items@[i as int]));
        }
        i = i + 1;
    }
    proof {
        assert(items@.take(items@.len() as int) =~= items@);
    }
    r
}

/// Copies a vector of clients; the copy holds the same clients in the same
/// order.
pub fn clone_clients(clients: &Vec<Client>) -> (r: Vec<Client>)
    ensures
        r@ == clients@,
{
    let mut r: Vec<Client> = Vec::new();
    let mut i: usize = 0;
    while i < clients.len()
        invariant
            i <= clients@.len(),
            r@ == clients@.take(i as int),
        decreases clients@.len() - i,
    {
        r.push(clients[i].clone());
        proof {
            assert(clients@.take(i + 1 as int) =~= clients@.take(i as int).push(
                clients@[i as int],
            ));
        }
        i = i + 1;
    }
    proof {
        assert(clients@.take(clients@.len() as int) =~= clients@);
    }
    r
}

/// An invoice: a billing record referring to exactly one client.
#[derive(Debug)]
pub struct Invoice {
    pub id: u32,
    pub code: String,
    pub client: Client,
    pub total: i64,
    pub currency: String,
    pub discount: i64,
    pub tax: i64,
    pub status: String,
    pub date: String,
    pub items: Vec<Item>,
}

impl Invoice {
    /// The money fields lie within the representable amount range, so that
    /// the net total cannot overflow.
    pub open spec fn wf(&self) -> bool {
        &&& -AMOUNT_LIMIT <= self.total <= AMOUNT_LIMIT
        &&& -AMOUNT_LIMIT <= self.discount <= AMOUNT_LIMIT
        &&& -AMOUNT_LIMIT <= self.tax <= AMOUNT_LIMIT
    }

    /// Builds an invoice from its attributes; money is in cents.
    pub fn new(
        id: u32,
        code: &str,
        client: &Client,
        currency: &str,
        total: i64,
        discount: i64,
        tax: i64,
        status: &str,
        date: &str,
        items: Vec<Item>,
    ) -> (inv: Invoice)
        ensures
            inv.id == id,
            inv.code@ == code@,
            inv.client == *client,
            inv.currency@ == currency@,
            inv.total == total,
            inv.discount == discount,
            inv.tax == tax,
            inv.status@ == status@,
            inv.date@ == date@,
            inv.items == items,
    {
        Invoice {
            id,
            code: code.to_owned(),
            client: client.clone(),
            currency: currency.to_owned(),
            total,
            discount,
            tax,
            status: status.to_owned(),
            date: date.to_owned(),
            items,
        }
    }

    /// The sentinel invoice returned when the record list is empty.
    pub fn default() -> (inv: Invoice)
        ensures
            inv.id == 0,
            inv.code@ == "empty_invoice"@,
            inv.total == 0,
            inv.discount == 0,
            inv.tax == 0,
            inv.currency@ == Seq::<char>::empty(),
            inv.status@ == Seq::<char>::empty(),
            inv.date@ == Seq::<char>::empty(),
            inv.items@ == Seq::<Item>::empty(),
            inv.client.id == 0,
            inv.client.name@ == "empty_client"@,
            inv.wf(),
    {
        Invoice {
            id: 0,
            code: String::from_str("empty_invoice"),
            client: Client::default(),
            currency: String::new(),
            total: 0,
            discount: 0,
            tax: 0,
            status: String::new(),
            date: String::new(),
            items: Vec::new(),
        }
    }

    /// The derived net total: total minus discount plus tax, in cents.
    pub fn calculate_net_total(&self) -> (net: i64)
        requires
            self.wf(),
        ensures
            net == self.total - self.discount + self.tax,
    {
        self.total - self.discount + self.tax
    }
}

/// The two invoices agree on every field; the item lists hold the same
/// items in the same order.
pub open spec fn inv_like(a: Invoice, b: Invoice) -> bool {
    &&& a.id == b.id
    &&& a.code == b.code
    &&& a.client == b.client
    &&& a.total == b.total
    &&& a.currency == b.currency
    &&& a.discount == b.discount
    &&& a.tax == b.tax
    &&& a.status == b.status
    &&& a.date == b.date
    &&& a.items@ == b.items@
}

impl Clone for Invoice {
    /// A clone agrees with the original on every field.
    fn clone(&self) -> (inv: Invoice)
        ensures
            inv_like(inv, *self),
    {
        Invoice {
            id: self.id,
            code: self.code.clone(),
            client: self.client.clone(),
            total: self.total,
            currency: self.currency.clone(),
            discount: self.discount,
            tax: self.tax,
            status: self.status.clone(),
            date: self.date.clone(),
            items: clone_items(&self.items),
        }
    }
}

} // verus!
