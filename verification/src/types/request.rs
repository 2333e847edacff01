//! What is sent to create an order, and how it is written as JSON. A field
//! that is not set is left out of the text altogether.

use vstd::prelude::*;

use crate::json::array_text;
use crate::json::decimal_digits;
use crate::json::decimal_text;
use crate::json::json_string_literal;
use crate::json::lemma_member_value_optional;
use crate::json::lemma_member_value_step;
use crate::json::member_value;
use crate::json::members_view;
use crate::json::object_text;
use crate::json::optional_member;
use crate::json::quote;
use crate::json::render_array;
use crate::json::render_object;
use crate::json::single_member;
use crate::json::string_value;
use crate::json::texts_view;
use crate::json::Decimal;
use crate::json::JsonMember;
use crate::json::Member;
use crate::types::identifiers::ProductCode;
use crate::types::text_view;

verus! {

/// Appends the member of a field that is always written.
fn push_member(members: &mut Vec<JsonMember>, key: &str, value: String)
    ensures
        members_view(final(members)@) == members_view(old(members)@) + single_member(
            key@,
            value@,
        ),
{
    members.push(JsonMember { key: key.to_owned(), value });
    assert(members_view(members@) =~= members_view(old(members)@) + single_member(key@, value@));
}

/// Appends the member of an optional field whose value is already JSON text,
/// if the field is set.
fn push_optional(members: &mut Vec<JsonMember>, key: &str, value: Option<String>)
    ensures
        members_view(final(members)@) == members_view(old(members)@) + optional_member(
            key@,
            text_view(value),
        ),
{
    match value {
        Some(text) => {
            push_member(members, key, text);
        },
        None => {
            assert(members_view(members@) =~= members_view(old(members)@) + optional_member(
                key@,
                text_view(value),
            ));
        },
    }
}

/// The string literal of an optional text.
fn optional_literal(text: &Option<String>) -> (r: Option<String>)
    ensures
        text_view(r) == string_value(text_view(*text)),
{
    match text {
        Some(t) => Some(quote(t.as_str())),
        None => None,
    }
}

/// A postal and contact address. Only the country is required.
#[derive(Debug, Clone, PartialEq)]
pub struct Addressbook {
    pub country: String,
    pub name: Option<String>,
    pub address: Option<String>,
    pub address2: Option<String>,
    pub city: Option<String>,
    pub province: Option<String>,
    pub postal_code: Option<String>,
    pub phone: Option<String>,
    pub email: Option<String>,
    pub comments: Option<String>,
}

/// The mathematical content of an [`Addressbook`].
pub struct AddressbookView {
    pub country: Seq<char>,
    pub name: Option<Seq<char>>,
    pub address: Option<Seq<char>>,
    pub address2: Option<Seq<char>>,
    pub city: Option<Seq<char>>,
    pub province: Option<Seq<char>>,
    pub postal_code: Option<Seq<char>>,
    pub phone: Option<Seq<char>>,
    pub email: Option<Seq<char>>,
    pub comments: Option<Seq<char>>,
}

impl View for Addressbook {
    type V = AddressbookView;

    open spec fn view(&self) -> AddressbookView {
        AddressbookView {
            country: self.country@,
            name: text_view(self.name),
            address: text_view(self.address),
            address2: text_view(self.address2),
            city: text_view(self.city),
            province: text_view(self.province),
            postal_code: text_view(self.postal_code),
            phone: text_view(self.phone),
            email: text_view(self.email),
            comments: text_view(self.comments),
        }
    }
}

impl AddressbookView {
    /// The address that stands where none was given: the country is "US",
    /// nothing else is set.
    pub open spec fn initial() -> AddressbookView {
        AddressbookView {
            country: "US"@,
            name: None,
            address: None,
            address2: None,
            city: None,
            province: None,
            postal_code: None,
            phone: None,
            email: None,
            comments: None,
        }
    }

    /// The members of the address on the wire: the country always, every
    /// other field only where it is set.
    pub open spec fn members(self) -> Seq<Member> {
        single_member("country"@, json_string_literal(self.country))
            + optional_member("name"@, string_value(self.name))
            + optional_member("address"@, string_value(self.address))
            + optional_member("address2"@, string_value(self.address2))
            + optional_member("city"@, string_value(self.city))
            + optional_member("province"@, string_value(self.province))
            + optional_member("postal_code"@, string_value(self.postal_code))
            + optional_member("phone"@, string_value(self.phone))
            + optional_member("email"@, string_value(self.email))
            + optional_member("comments"@, string_value(self.comments))
    }

    /// The address as JSON text.
    pub open spec fn json(self) -> Seq<char> {
        object_text(self.members())
    }
}

impl Default for Addressbook {
    /// The country is "US"; nothing else is set.
    fn default() -> (r: Addressbook)
        ensures
            r@ == AddressbookView::initial(),
    {
        Addressbook {
            country: "US".to_string(),
            name: None,
            address: None,
            address2: None,
            city: None,
            province: None,
            postal_code: None,
            phone: None,
            email: None,
            comments: None,
        }
    }
}

impl Addressbook {
    /// Writes the address as a JSON object. A field that is not set leaves no
    /// trace: neither its key nor a null.
    pub fn to_json(&self) -> (r: String)
        ensures
            r@ == self@.json(),
    {
        let mut members: Vec<JsonMember> = Vec::new();
        push_member(&mut members, "country", quote(self.country.as_str()));
        assert(members_view(members@) =~= single_member(
            "country"@,
            json_string_literal(self@.country),
        ));
        push_optional(&mut members, "name", optional_literal(&self.name));
        push_optional(&mut members, "address", optional_literal(&self.address));
        push_optional(&mut members, "address2", optional_literal(&self.address2));
        push_optional(&mut members, "city", optional_literal(&self.city));
        push_optional(&mut members, "province", optional_literal(&self.province));
        push_optional(&mut members, "postal_code", optional_literal(&self.postal_code));
        push_optional(&mut members, "phone", optional_literal(&self.phone));
        push_optional(&mut members, "email", optional_literal(&self.email));
        push_optional(&mut members, "comments", optional_literal(&self.comments));
        render_object(&members)
    }
}

/// Which members an address has on the wire. The country is always there.
/// Each optional field is there exactly when it is set, with the string
/// literal of its text as its value, also where that text is empty; a field
/// that is not set has no member at all, not even one with a null.
pub proof fn lemma_addressbook_members(a: AddressbookView)
    ensures
        member_value(a.members(), "country"@) == Some(json_string_literal(a.country)),
        member_value(a.members(), "name"@) == string_value(a.name),
        member_value(a.members(), "address"@) == string_value(a.address),
        member_value(a.members(), "address2"@) == string_value(a.address2),
        member_value(a.members(), "city"@) == string_value(a.city),
        member_value(a.members(), "province"@) == string_value(a.province),
        member_value(a.members(), "postal_code"@) == string_value(a.postal_code),
        member_value(a.members(), "phone"@) == string_value(a.phone),
        member_value(a.members(), "email"@) == string_value(a.email),
        member_value(a.members(), "comments"@) == string_value(a.comments),
{
    reveal_strlit("country");
    reveal_strlit("name");
    reveal_strlit("address");
    reveal_strlit("address2");
    reveal_strlit("city");
    reveal_strlit("province");
    reveal_strlit("postal_code");
    reveal_strlit("phone");
    reveal_strlit("email");
    reveal_strlit("comments");
    // The keys differ from one another, by their length or by their first
    // character.
    assert("country"@.len() == 7 && "country"@[0] == 'c');
    assert("name"@.len() == 4 && "name"@[0] == 'n');
    assert("address"@.len() == 7 && "address"@[0] == 'a');
    assert("address2"@.len() == 8 && "address2"@[0] == 'a');
    assert("city"@.len() == 4 && "city"@[0] == 'c');
    assert("province"@.len() == 8 && "province"@[0] == 'p');
    assert("postal_code"@.len() == 11);
    assert("phone"@.len() == 5 && "phone"@[0] == 'p');
    assert("email"@.len() == 5 && "email"@[0] == 'e');
    assert("comments"@.len() == 8 && "comments"@[0] == 'c');
    let m0 = single_member("country"@, json_string_literal(a.country));
    let m1 = m0 + optional_member("name"@, string_value(a.name));
    let m2 = m1 + optional_member("address"@, string_value(a.address));
    let m3 = m2 + optional_member("address2"@, string_value(a.address2));
    let m4 = m3 + optional_member("city"@, string_value(a.city));
    let m5 = m4 + optional_member("province"@, string_value(a.province));
    let m6 = m5 + optional_member("postal_code"@, string_value(a.postal_code));
    let m7 = m6 + optional_member("phone"@, string_value(a.phone));
    let m8 = m7 + optional_member("email"@, string_value(a.email));
    let m9 = m8 + optional_member("comments"@, string_value(a.comments));
    assert forall|key: Seq<char>| #[trigger] member_value(m0, key) == if "country"@ == key {
        Some(json_string_literal(a.country))
    } else {
        None
    } by {
        lemma_member_value_optional("country"@, Some(json_string_literal(a.country)), key);
    }
    lemma_member_value_step(m0, "name"@, string_value(a.name));
    lemma_member_value_step(m1, "address"@, string_value(a.address));
    lemma_member_value_step(m2, "address2"@, string_value(a.address2));
    lemma_member_value_step(m3, "city"@, string_value(a.city));
    lemma_member_value_step(m4, "province"@, string_value(a.province));
    lemma_member_value_step(m5, "postal_code"@, string_value(a.postal_code));
    lemma_member_value_step(m6, "phone"@, string_value(a.phone));
    lemma_member_value_step(m7, "email"@, string_value(a.email));
    lemma_member_value_step(m8, "comments"@, string_value(a.comments));
    assert(a.members() == m9);
}

/// The content of an optional address.
pub open spec fn address_view(address: Option<Addressbook>) -> Option<AddressbookView> {
    match address {
        Some(a) => Some(a@),
        None => None,
    }
}

/// The JSON text of an optional address.
pub open spec fn address_value(address: Option<AddressbookView>) -> Option<Seq<char>> {
    match address {
        Some(a) => Some(a.json()),
        None => None,
    }
}

/// The text of an optional product code.
pub open spec fn code_view(code: Option<ProductCode>) -> Option<Seq<char>> {
    match code {
        Some(c) => Some(c@),
        None => None,
    }
}

/// The JSON number of an optional price.
pub open spec fn price_value(price: Option<Decimal>) -> Option<Seq<char>> {
    match price {
        Some(p) => Some(p.text()),
        None => None,
    }
}

/// One line of an order that is to be created.
#[derive(Debug, Clone, PartialEq)]
pub struct CreateOrderProduct {
    pub product_code: Option<ProductCode>,
    pub quantity: u32,
    /// An address for this line alone, in place of the order's.
    pub addressbook: Option<Addressbook>,
    pub unit_price: Option<Decimal>,
    pub currency: Option<String>,
}

/// The mathematical content of a [`CreateOrderProduct`].
pub struct CreateOrderProductView {
    pub product_code: Option<Seq<char>>,
    pub quantity: u32,
    pub addressbook: Option<AddressbookView>,
    pub unit_price: Option<Decimal>,
    pub currency: Option<Seq<char>>,
}

impl View for CreateOrderProduct {
    type V = CreateOrderProductView;

    open spec fn view(&self) -> CreateOrderProductView {
        CreateOrderProductView {
            product_code: code_view(self.product_code),
            quantity: self.quantity,
            addressbook: address_view(self.addressbook),
            unit_price: self.unit_price,
            currency: text_view(self.currency),
        }
    }
}

impl CreateOrderProductView {
    /// The line that stands where none was described: one piece, nothing
    /// else set.
    pub open spec fn initial() -> CreateOrderProductView {
        CreateOrderProductView {
            product_code: None,
            quantity: 1,
            addressbook: None,
            unit_price: None,
            currency: None,
        }
    }

    /// The members of the line on the wire: the quantity always, every other
    /// field only where it is set.
    pub open spec fn members(self) -> Seq<Member> {
        optional_member("product_code"@, string_value(self.product_code))
            + single_member("quantity"@, decimal_digits(self.quantity as nat))
            + optional_member("addressbook"@, address_value(self.addressbook))
            + optional_member("unit_price"@, price_value(self.unit_price))
            + optional_member("currency"@, string_value(self.currency))
    }

    /// The line as JSON text.
    pub open spec fn json(self) -> Seq<char> {
        object_text(self.members())
    }
}

impl Default for CreateOrderProduct {
    /// One piece; nothing else is set.
    fn default() -> (r: CreateOrderProduct)
        ensures
            r@ == CreateOrderProductView::initial(),
    {
        CreateOrderProduct {
            product_code: None,
            quantity: 1,
            addressbook: None,
            unit_price: None,
            currency: None,
        }
    }
}

impl CreateOrderProduct {
    /// Writes the line as a JSON object. A field that is not set leaves no
    /// trace: neither its key nor a null.
    pub fn to_json(&self) -> (r: String)
        ensures
            r@ == self@.json(),
    {
        let code = match &self.product_code {
            Some(c) => Some(c.to_json()),
            None => None,
        };
        let address = match &self.addressbook {
            Some(a) => Some(a.to_json()),
            None => None,
        };
        let price = match &self.unit_price {
            Some(p) => Some(p.to_json()),
            None => None,
        };
        let mut members: Vec<JsonMember> = Vec::new();
        push_optional(&mut members, "product_code", code);
        assert(members_view(members@) =~= optional_member(
            "product_code"@,
            string_value(self@.product_code),
        ));
        push_member(&mut members, "quantity", decimal_text(self.quantity as u64));
        push_optional(&mut members, "addressbook", address);
        push_optional(&mut members, "unit_price", price);
        push_optional(&mut members, "currency", optional_literal(&self.currency));
        render_object(&members)
    }
}

/// Which members a line has on the wire. The quantity is always there, as a
/// decimal numeral. Each optional field is there exactly when it is set: a
/// text as its string literal, also where it is empty, the address as its
/// object, the price as its number; a field that is not set has no member at
/// all, not even one with a null.
pub proof fn lemma_product_members(p: CreateOrderProductView)
    ensures
        member_value(p.members(), "product_code"@) == string_value(p.product_code),
        member_value(p.members(), "quantity"@) == Some(decimal_digits(p.quantity as nat)),
        member_value(p.members(), "addressbook"@) == address_value(p.addressbook),
        member_value(p.members(), "unit_price"@) == price_value(p.unit_price),
        member_value(p.members(), "currency"@) == string_value(p.currency),
{
    reveal_strlit("product_code");
    reveal_strlit("quantity");
    reveal_strlit("addressbook");
    reveal_strlit("unit_price");
    reveal_strlit("currency");
    // The keys differ from one another, by their length or by their first
    // character.
    assert("product_code"@.len() == 12);
    assert("quantity"@.len() == 8 && "quantity"@[0] == 'q');
    assert("addressbook"@.len() == 11);
    assert("unit_price"@.len() == 10);
    assert("currency"@.len() == 8 && "currency"@[0] == 'c');
    let m0 = optional_member("product_code"@, string_value(p.product_code));
    let m1 = m0 + single_member("quantity"@, decimal_digits(p.quantity as nat));
    let m2 = m1 + optional_member("addressbook"@, address_value(p.addressbook));
    let m3 = m2 + optional_member("unit_price"@, price_value(p.unit_price));
    let m4 = m3 + optional_member("currency"@, string_value(p.currency));
    assert forall|key: Seq<char>| #[trigger] member_value(m0, key) == if "product_code"@ == key {
        string_value(p.product_code)
    } else {
        None
    } by {
        lemma_member_value_optional("product_code"@, string_value(p.product_code), key);
    }
    lemma_member_value_step(m0, "quantity"@, Some(decimal_digits(p.quantity as nat)));
    lemma_member_value_step(m1, "addressbook"@, address_value(p.addressbook));
    lemma_member_value_step(m2, "unit_price"@, price_value(p.unit_price));
    lemma_member_value_step(m3, "currency"@, string_value(p.currency));
    assert(p.members() == m4);
}

/// The content of the lines of an order.
pub open spec fn products_view(products: Seq<CreateOrderProduct>) -> Seq<CreateOrderProductView> {
    products.map_values(|p: CreateOrderProduct| p@)
}

/// The JSON texts of the lines of an order.
pub open spec fn products_json(products: Seq<CreateOrderProductView>) -> Seq<Seq<char>> {
    products.map_values(|p: CreateOrderProductView| p.json())
}

/// What is sent to create an order. The lines are kept in their order.
#[derive(Debug, Clone, PartialEq)]
pub struct CreateOrderRequest {
    pub customer_order_reference: Option<String>,
    /// The address for the whole order.
    pub addressbook: Option<Addressbook>,
    pub order_products: Vec<CreateOrderProduct>,
    pub comments_customer: Option<String>,
}

/// The mathematical content of a [`CreateOrderRequest`].
pub struct CreateOrderRequestView {
    pub customer_order_reference: Option<Seq<char>>,
    pub addressbook: Option<AddressbookView>,
    pub order_products: Seq<CreateOrderProductView>,
    pub comments_customer: Option<Seq<char>>,
}

impl View for CreateOrderRequest {
    type V = CreateOrderRequestView;

    open spec fn view(&self) -> CreateOrderRequestView {
        CreateOrderRequestView {
            customer_order_reference: text_view(self.customer_order_reference),
            addressbook: address_view(self.addressbook),
            order_products: products_view(self.order_products@),
            comments_customer: text_view(self.comments_customer),
        }
    }
}

impl CreateOrderRequestView {
    /// The request that stands where none was described: no lines, nothing
    /// set.
    pub open spec fn initial() -> CreateOrderRequestView {
        CreateOrderRequestView {
            customer_order_reference: None,
            addressbook: None,
            order_products: Seq::empty(),
            comments_customer: None,
        }
    }

    /// The members of the request on the wire: the lines always, as an array
    /// in their order, every other field only where it is set.
    pub open spec fn members(self) -> Seq<Member> {
        optional_member("customer_order_reference"@, string_value(self.customer_order_reference))
            + optional_member("addressbook"@, address_value(self.addressbook))
            + single_member("order_products"@, array_text(products_json(self.order_products)))
            + optional_member("comments_customer"@, string_value(self.comments_customer))
    }

    /// The request as JSON text.
    pub open spec fn json(self) -> Seq<char> {
        object_text(self.members())
    }
}

impl Default for CreateOrderRequest {
    /// No lines; nothing is set.
    fn default() -> (r: CreateOrderRequest)
        ensures
            r@ == CreateOrderRequestView::initial(),
    {
        let r = CreateOrderRequest {
            customer_order_reference: None,
            addressbook: None,
            order_products: Vec::new(),
            comments_customer: None,
        };
        assert(r@.order_products =~= Seq::empty());
        r
    }
}

impl CreateOrderRequest {
    /// Writes the request as a JSON object: the body of the call that creates
    /// the order. A field that is not set leaves no trace: neither its key
    /// nor a null.
    pub fn to_json(&self) -> (r: String)
        ensures
            r@ == self@.json(),
    {
        let address = match &self.addressbook {
            Some(a) => Some(a.to_json()),
            None => None,
        };
        let mut lines: Vec<String> = Vec::new();
        let mut i: usize = 0;
        while i < self.order_products.len()
            invariant
                0 <= i <= self.order_products.len(),
                lines@.len() == i,
                texts_view(lines@) == products_json(self@.order_products.take(i as int)),
            decreases self.order_products.len() - i,
        {
            let ghost before = texts_view(lines@);
            let line = self.order_products[i].to_json();
            lines.push(line);
            proof {
                let done = self@.order_products.take(i as int);
                let next = self@.order_products.take(i + 1);
                assert(next[i as int] == self.order_products@[i as int]@);
                assert forall|k: int| 0 <= k < i + 1 implies texts_view(lines@)[k] == products_json(
                    next,
                )[k] by {
                    if k < i {
                        assert(before[k] == products_json(done)[k]);
                        assert(done[k] == next[k]);
                    }
                }
                assert(texts_view(lines@) =~= products_json(next));
            }
            i = i + 1;
        }
        assert(self@.order_products.take(i as int) =~= self@.order_products);
        let mut members: Vec<JsonMember> = Vec::new();
        push_optional(
            &mut members,
            "customer_order_reference",
            optional_literal(&self.customer_order_reference),
        );
        assert(members_view(members@) =~= optional_member(
            "customer_order_reference"@,
            string_value(self@.customer_order_reference),
        ));
        push_optional(&mut members, "addressbook", address);
        push_member(&mut members, "order_products", render_array(&lines));
        push_optional(&mut members, "comments_customer", optional_literal(&self.comments_customer));
        render_object(&members)
    }
}

/// Which members a request has on the wire. The lines are always there, as
/// an array of their objects in their order. Each optional field is there
/// exactly when it is set: a text as its string literal, also where it is
/// empty, the address as its object; a field that is not set has no member at
/// all, not even one with a null.
pub proof fn lemma_request_members(q: CreateOrderRequestView)
    ensures
        member_value(q.members(), "customer_order_reference"@) == string_value(
            q.customer_order_reference,
        ),
        member_value(q.members(), "addressbook"@) == address_value(q.addressbook),
        member_value(q.members(), "order_products"@) == Some(
            array_text(products_json(q.order_products)),
        ),
        member_value(q.members(), "comments_customer"@) == string_value(q.comments_customer),
{
    reveal_strlit("customer_order_reference");
    reveal_strlit("addressbook");
    reveal_strlit("order_products");
    reveal_strlit("comments_customer");
    // The keys differ from one another by their length.
    assert("customer_order_reference"@.len() == 24);
    assert("addressbook"@.len() == 11);
    assert("order_products"@.len() == 14);
    assert("comments_customer"@.len() == 17);
    let m0 = optional_member(
        "customer_order_reference"@,
        string_value(q.customer_order_reference),
    );
    let m1 = m0 + optional_member("addressbook"@, address_value(q.addressbook));
    let m2 = m1 + single_member("order_products"@, array_text(products_json(q.order_products)));
    let m3 = m2 + optional_member("comments_customer"@, string_value(q.comments_customer));
    assert forall|key: Seq<char>| #[trigger]
        member_value(m0, key) == if "customer_order_reference"@ == key {
            string_value(q.customer_order_reference)
        } else {
            None
        } by {
        lemma_member_value_optional(
            "customer_order_reference"@,
            string_value(q.customer_order_reference),
            key,
        );
    }
    lemma_member_value_step(m0, "addressbook"@, address_value(q.addressbook));
    lemma_member_value_step(
        m1,
        "order_products"@,
        Some(array_text(products_json(q.order_products))),
    );
    lemma_member_value_step(m2, "comments_customer"@, string_value(q.comments_customer));
    assert(q.members() == m3);
}

} // verus!
