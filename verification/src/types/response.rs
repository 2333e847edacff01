//! What the server answers to a created order, and how it is read from
//! JSON. Amounts are kept as the text that the server sent.

use vstd::prelude::*;

use crate::error::Error;
use crate::error::ErrorView;
use crate::json::find_member;
use crate::json::json_array_parse;
use crate::json::json_object_parse;
use crate::json::json_optional_string_parse;
use crate::json::json_optional_u64_parse;
use crate::json::json_string_parse;
use crate::json::json_u64_parse;
use crate::json::member_value;
use crate::json::members_view;
use crate::json::read_optional_string;
use crate::json::read_optional_u64;
use crate::json::read_u64;
use crate::json::split_array;
use crate::json::split_object;
use crate::json::texts_view;
use crate::json::unquote;
use crate::json::JsonMember;
use crate::json::Member;
use crate::types::text_view;

verus! {

/// What is reported for a field that a document lacks.
pub open spec fn missing_field(key: Seq<char>) -> Seq<char> {
    "missing field `"@ + key + "`"@
}

/// The number in a field that must be there.
pub open spec fn required_u64(members: Seq<Member>, key: Seq<char>) -> Result<u64, Seq<char>> {
    match member_value(members, key) {
        Some(raw) => json_u64_parse(raw),
        None => Err(missing_field(key)),
    }
}

/// The text in a field that must be there.
pub open spec fn required_string(members: Seq<Member>, key: Seq<char>) -> Result<
    Seq<char>,
    Seq<char>,
> {
    match member_value(members, key) {
        Some(raw) => json_string_parse(raw),
        None => Err(missing_field(key)),
    }
}

/// The number in a field that may be absent or null.
pub open spec fn optional_u64(members: Seq<Member>, key: Seq<char>) -> Result<
    Option<u64>,
    Seq<char>,
> {
    match member_value(members, key) {
        Some(raw) => json_optional_u64_parse(raw),
        None => Ok(None),
    }
}

/// The text in a field that may be absent or null.
pub open spec fn optional_string(members: Seq<Member>, key: Seq<char>) -> Result<
    Option<Seq<char>>,
    Seq<char>,
> {
    match member_value(members, key) {
        Some(raw) => json_optional_string_parse(raw),
        None => Ok(None),
    }
}

fn missing(key: &str) -> (r: String)
    ensures
        r@ == missing_field(key@),
{
    let mut message = "missing field `".to_owned();
    message.append(key);
    message.append("`");
    message
}

fn take_u64(members: &Vec<JsonMember>, key: &str) -> (r: Result<u64, String>)
    ensures
        match required_u64(members_view(members@), key@) {
            Ok(number) => r == Ok::<u64, String>(number),
            Err(cause) => r matches Err(e) && e@ == cause,
        },
{
    match find_member(members, key) {
        Some(raw) => read_u64(raw),
        None => Err(missing(key)),
    }
}

fn take_string(members: &Vec<JsonMember>, key: &str) -> (r: Result<String, String>)
    ensures
        match required_string(members_view(members@), key@) {
            Ok(text) => r matches Ok(t) && t@ == text,
            Err(cause) => r matches Err(e) && e@ == cause,
        },
{
    match find_member(members, key) {
        Some(raw) => unquote(raw),
        None => Err(missing(key)),
    }
}

fn take_optional_u64(members: &Vec<JsonMember>, key: &str) -> (r: Result<Option<u64>, String>)
    ensures
        match optional_u64(members_view(members@), key@) {
            Ok(number) => r == Ok::<Option<u64>, String>(number),
            Err(cause) => r matches Err(e) && e@ == cause,
        },
{
    match find_member(members, key) {
        Some(raw) => read_optional_u64(raw),
        None => Ok(None),
    }
}

fn take_optional_string(members: &Vec<JsonMember>, key: &str) -> (r: Result<
    Option<String>,
    String,
>)
    ensures
        match optional_string(members_view(members@), key@) {
            Ok(text) => r matches Ok(t) && text_view(t) == text,
            Err(cause) => r matches Err(e) && e@ == cause,
        },
{
    match find_member(members, key) {
        Some(raw) => read_optional_string(raw),
        None => Ok(None),
    }
}

/// An order as the server reports it. Amounts are text, as the server sent
/// them: they are never turned into binary fractions.
#[derive(Debug, Clone, PartialEq)]
pub struct Order {
    pub id: u64,
    pub status_order_id: u64,
    pub customer_id: u64,
    pub customer_order_reference: String,
    pub gross_total: String,
    pub addressbook_id: u64,
    /// When the order was created, as ISO 8601 text.
    pub created_at: Option<String>,
    /// When the order was last changed, as ISO 8601 text.
    pub updated_at: Option<String>,
    pub comments_customer: Option<String>,
    pub invoice_no: Option<String>,
}

/// The mathematical content of an [`Order`].
pub struct OrderView {
    pub id: u64,
    pub status_order_id: u64,
    pub customer_id: u64,
    pub customer_order_reference: Seq<char>,
    pub gross_total: Seq<char>,
    pub addressbook_id: u64,
    pub created_at: Option<Seq<char>>,
    pub updated_at: Option<Seq<char>>,
    pub comments_customer: Option<Seq<char>>,
    pub invoice_no: Option<Seq<char>>,
}

impl View for Order {
    type V = OrderView;

    open spec fn view(&self) -> OrderView {
        OrderView {
            id: self.id,
            status_order_id: self.status_order_id,
            customer_id: self.customer_id,
            customer_order_reference: self.customer_order_reference@,
            gross_total: self.gross_total@,
            addressbook_id: self.addressbook_id,
            created_at: text_view(self.created_at),
            updated_at: text_view(self.updated_at),
            comments_customer: text_view(self.comments_customer),
            invoice_no: text_view(self.invoice_no),
        }
    }
}

impl OrderView {
    /// The order that the members of a JSON object describe. The six fields
    /// that every order has must be there; a field that may be missing is
    /// unset where the object lacks it or gives it as null. Members with
    /// other keys are passed over. Of several faults the first is reported,
    /// in the order of the fields.
    pub open spec fn from_members(members: Seq<Member>) -> Result<OrderView, Seq<char>> {
        let id = required_u64(members, "id"@);
        let status_order_id = required_u64(members, "status_order_id"@);
        let customer_id = required_u64(members, "customer_id"@);
        let customer_order_reference = required_string(members, "customer_order_reference"@);
        let gross_total = required_string(members, "gross_total"@);
        let addressbook_id = required_u64(members, "addressbook_id"@);
        let created_at = optional_string(members, "created_at"@);
        let updated_at = optional_string(members, "updated_at"@);
        let comments_customer = optional_string(members, "comments_customer"@);
        let invoice_no = optional_string(members, "invoice_no"@);
        if id is Err {
            Err(id->Err_0)
        } else if status_order_id is Err {
            Err(status_order_id->Err_0)
        } else if customer_id is Err {
            Err(customer_id->Err_0)
        } else if customer_order_reference is Err {
            Err(customer_order_reference->Err_0)
        } else if gross_total is Err {
            Err(gross_total->Err_0)
        } else if addressbook_id is Err {
            Err(addressbook_id->Err_0)
        } else if created_at is Err {
            Err(created_at->Err_0)
        } else if updated_at is Err {
            Err(updated_at->Err_0)
        } else if comments_customer is Err {
            Err(comments_customer->Err_0)
        } else if invoice_no is Err {
            Err(invoice_no->Err_0)
        } else {
            Ok(
                OrderView {
                    id: id->Ok_0,
                    status_order_id: status_order_id->Ok_0,
                    customer_id: customer_id->Ok_0,
                    customer_order_reference: customer_order_reference->Ok_0,
                    gross_total: gross_total->Ok_0,
                    addressbook_id: addressbook_id->Ok_0,
                    created_at: created_at->Ok_0,
                    updated_at: updated_at->Ok_0,
                    comments_customer: comments_customer->Ok_0,
                    invoice_no: invoice_no->Ok_0,
                },
            )
        }
    }

    /// The order that a JSON document describes.
    pub open spec fn from_json(document: Seq<char>) -> Result<OrderView, Seq<char>> {
        match json_object_parse(document) {
            Ok(members) => OrderView::from_members(members),
            Err(cause) => Err(cause),
        }
    }
}

impl Order {
    /// Reads an order from the members of a JSON object. The texts of the
    /// amounts are taken as they stand.
    pub fn from_members(members: &Vec<JsonMember>) -> (r: Result<Order, String>)
        ensures
            match OrderView::from_members(members_view(members@)) {
                Ok(order) => r matches Ok(o) && o@ == order,
                Err(cause) => r matches Err(e) && e@ == cause,
            },
    {
        let id = match take_u64(members, "id") {
            Ok(v) => v,
            Err(e) => return Err(e),
        };
        let status_order_id = match take_u64(members, "status_order_id") {
            Ok(v) => v,
            Err(e) => return Err(e),
        };
        let customer_id = match take_u64(members, "customer_id") {
            Ok(v) => v,
            Err(e) => return Err(e),
        };
        let customer_order_reference = match take_string(members, "customer_order_reference") {
            Ok(v) => v,
            Err(e) => return Err(e),
        };
        let gross_total = match take_string(members, "gross_total") {
            Ok(v) => v,
            Err(e) => return Err(e),
        };
        let addressbook_id = match take_u64(members, "addressbook_id") {
            Ok(v) => v,
            Err(e) => return Err(e),
        };
        let created_at = match take_optional_string(members, "created_at") {
            Ok(v) => v,
            Err(e) => return Err(e),
        };
        let updated_at = match take_optional_string(members, "updated_at") {
            Ok(v) => v,
            Err(e) => return Err(e),
        };
        let comments_customer = match take_optional_string(members, "comments_customer") {
            Ok(v) => v,
            Err(e) => return Err(e),
        };
        let invoice_no = match take_optional_string(members, "invoice_no") {
            Ok(v) => v,
            Err(e) => return Err(e),
        };
        Ok(
            Order {
                id,
                status_order_id,
                customer_id,
                customer_order_reference,
                gross_total,
                addressbook_id,
                created_at,
                updated_at,
                comments_customer,
                invoice_no,
            },
        )
    }

    /// Reads an order from a JSON document; a refusal is reported as a codec
    /// failure.
    pub fn from_json(document: &str) -> (r: Result<Order, Error>)
        ensures
            match OrderView::from_json(document@) {
                Ok(order) => r matches Ok(o) && o@ == order,
                Err(cause) => r matches Err(e) && e@ == ErrorView::Json(cause),
            },
    {
        let members = match split_object(document) {
            Ok(members) => members,
            Err(cause) => return Err(Error::Json(cause)),
        };
        match Order::from_members(&members) {
            Ok(order) => Ok(order),
            Err(cause) => Err(Error::Json(cause)),
        }
    }
}

/// Reading an order looks at nothing but what the object gives to the ten
/// keys of an order: two objects that agree on these are read alike, whatever
/// else they hold and in whatever order.
pub proof fn lemma_order_reads_its_keys_only(a: Seq<Member>, b: Seq<Member>)
    requires
        member_value(a, "id"@) == member_value(b, "id"@),
        member_value(a, "status_order_id"@) == member_value(b, "status_order_id"@),
        member_value(a, "customer_id"@) == member_value(b, "customer_id"@),
        member_value(a, "customer_order_reference"@) == member_value(
            b,
            "customer_order_reference"@,
        ),
        member_value(a, "gross_total"@) == member_value(b, "gross_total"@),
        member_value(a, "addressbook_id"@) == member_value(b, "addressbook_id"@),
        member_value(a, "created_at"@) == member_value(b, "created_at"@),
        member_value(a, "updated_at"@) == member_value(b, "updated_at"@),
        member_value(a, "comments_customer"@) == member_value(b, "comments_customer"@),
        member_value(a, "invoice_no"@) == member_value(b, "invoice_no"@),
    ensures
        OrderView::from_members(a) == OrderView::from_members(b),
{
}

/// One line of an order as the server reports it. Quantity and prices are
/// text, as the server sent them.
#[derive(Debug, Clone, PartialEq)]
pub struct OrderProduct {
    pub id: u64,
    pub order_id: u64,
    pub product_id: u64,
    pub quantity: String,
    pub price: String,
    pub final_price: String,
    pub addressbook_id: Option<u64>,
    /// When the line was created, as ISO 8601 text.
    pub created_at: Option<String>,
    /// When the line was last changed, as ISO 8601 text.
    pub updated_at: Option<String>,
}

/// The mathematical content of an [`OrderProduct`].
pub struct OrderProductView {
    pub id: u64,
    pub order_id: u64,
    pub product_id: u64,
    pub quantity: Seq<char>,
    pub price: Seq<char>,
    pub final_price: Seq<char>,
    pub addressbook_id: Option<u64>,
    pub created_at: Option<Seq<char>>,
    pub updated_at: Option<Seq<char>>,
}

impl View for OrderProduct {
    type V = OrderProductView;

    open spec fn view(&self) -> OrderProductView {
        OrderProductView {
            id: self.id,
            order_id: self.order_id,
            product_id: self.product_id,
            quantity: self.quantity@,
            price: self.price@,
            final_price: self.final_price@,
            addressbook_id: self.addressbook_id,
            created_at: text_view(self.created_at),
            updated_at: text_view(self.updated_at),
        }
    }
}

impl OrderProductView {
    /// The line that the members of a JSON object describe. The six fields
    /// that every line has must be there; a field that may be missing is
    /// unset where the object lacks it or gives it as null. Members with
    /// other keys are passed over. Of several faults the first is reported,
    /// in the order of the fields.
    pub open spec fn from_members(members: Seq<Member>) -> Result<OrderProductView, Seq<char>> {
        let id = required_u64(members, "id"@);
        let order_id = required_u64(members, "order_id"@);
        let product_id = required_u64(members, "product_id"@);
        let quantity = required_string(members, "quantity"@);
        let price = required_string(members, "price"@);
        let final_price = required_string(members, "final_price"@);
        let addressbook_id = optional_u64(members, "addressbook_id"@);
        let created_at = optional_string(members, "created_at"@);
        let updated_at = optional_string(members, "updated_at"@);
        if id is Err {
            Err(id->Err_0)
        } else if order_id is Err {
            Err(order_id->Err_0)
        } else if product_id is Err {
            Err(product_id->Err_0)
        } else if quantity is Err {
            Err(quantity->Err_0)
        } else if price is Err {
            Err(price->Err_0)
        } else if final_price is Err {
            Err(final_price->Err_0)
        } else if addressbook_id is Err {
            Err(addressbook_id->Err_0)
        } else if created_at is Err {
            Err(created_at->Err_0)
        } else if updated_at is Err {
            Err(updated_at->Err_0)
        } else {
            Ok(
                OrderProductView {
                    id: id->Ok_0,
                    order_id: order_id->Ok_0,
                    product_id: product_id->Ok_0,
                    quantity: quantity->Ok_0,
                    price: price->Ok_0,
                    final_price: final_price->Ok_0,
                    addressbook_id: addressbook_id->Ok_0,
                    created_at: created_at->Ok_0,
                    updated_at: updated_at->Ok_0,
                },
            )
        }
    }

    /// The line that a JSON document describes.
    pub open spec fn from_json(document: Seq<char>) -> Result<OrderProductView, Seq<char>> {
        match json_object_parse(document) {
            Ok(members) => OrderProductView::from_members(members),
            Err(cause) => Err(cause),
        }
    }
}

impl OrderProduct {
    /// Reads a line from the members of a JSON object. The texts of quantity
    /// and prices are taken as they stand.
    pub fn from_members(members: &Vec<JsonMember>) -> (r: Result<OrderProduct, String>)
        ensures
            match OrderProductView::from_members(members_view(members@)) {
                Ok(line) => r matches Ok(p) && p@ == line,
                Err(cause) => r matches Err(e) && e@ == cause,
            },
    {
        let id = match take_u64(members, "id") {
            Ok(v) => v,
            Err(e) => return Err(e),
        };
        let order_id = match take_u64(members, "order_id") {
            Ok(v) => v,
            Err(e) => return Err(e),
        };
        let product_id = match take_u64(members, "product_id") {
            Ok(v) => v,
            Err(e) => return Err(e),
        };
        let quantity = match take_string(members, "quantity") {
            Ok(v) => v,
            Err(e) => return Err(e),
        };
        let price = match take_string(members, "price") {
            Ok(v) => v,
            Err(e) => return Err(e),
        };
        let final_price = match take_string(members, "final_price") {
            Ok(v) => v,
            Err(e) => return Err(e),
        };
        let addressbook_id = match take_optional_u64(members, "addressbook_id") {
            Ok(v) => v,
            Err(e) => return Err(e),
        };
        let created_at = match take_optional_string(members, "created_at") {
            Ok(v) => v,
            Err(e) => return Err(e),
        };
        let updated_at = match take_optional_string(members, "updated_at") {
            Ok(v) => v,
            Err(e) => return Err(e),
        };
        Ok(
            OrderProduct {
                id,
                order_id,
                product_id,
                quantity,
                price,
                final_price,
                addressbook_id,
                created_at,
                updated_at,
            },
        )
    }

    /// Reads a line from a JSON document; a refusal is reported as a codec
    /// failure.
    pub fn from_json(document: &str) -> (r: Result<OrderProduct, Error>)
        ensures
            match OrderProductView::from_json(document@) {
                Ok(line) => r matches Ok(p) && p@ == line,
                Err(cause) => r matches Err(e) && e@ == ErrorView::Json(cause),
            },
    {
        let members = match split_object(document) {
            Ok(members) => members,
            Err(cause) => return Err(Error::Json(cause)),
        };
        match OrderProduct::from_members(&members) {
            Ok(line) => Ok(line),
            Err(cause) => Err(Error::Json(cause)),
        }
    }
}

/// Reading a line looks at nothing but what the object gives to the nine
/// keys of a line: two objects that agree on these are read alike, whatever
/// else they hold and in whatever order.
pub proof fn lemma_order_product_reads_its_keys_only(a: Seq<Member>, b: Seq<Member>)
    requires
        member_value(a, "id"@) == member_value(b, "id"@),
        member_value(a, "order_id"@) == member_value(b, "order_id"@),
        member_value(a, "product_id"@) == member_value(b, "product_id"@),
        member_value(a, "quantity"@) == member_value(b, "quantity"@),
        member_value(a, "price"@) == member_value(b, "price"@),
        member_value(a, "final_price"@) == member_value(b, "final_price"@),
        member_value(a, "addressbook_id"@) == member_value(b, "addressbook_id"@),
        member_value(a, "created_at"@) == member_value(b, "created_at"@),
        member_value(a, "updated_at"@) == member_value(b, "updated_at"@),
    ensures
        OrderProductView::from_members(a) == OrderProductView::from_members(b),
{
}

/// The lines that the items of a JSON array describe, in their order. Of
/// several faulty items the first is reported.
pub open spec fn order_products_from(items: Seq<Seq<char>>) -> Result<
    Seq<OrderProductView>,
    Seq<char>,
>
    decreases items.len(),
{
    if items.len() == 0 {
        Ok(Seq::empty())
    } else {
        match order_products_from(items.drop_last()) {
            Ok(front) => match OrderProductView::from_json(items.last()) {
                Ok(line) => Ok(front.push(line)),
                Err(cause) => Err(cause),
            },
            Err(cause) => Err(cause),
        }
    }
}

/// A fault among the first items of an array is the fault of the whole array.
proof fn lemma_fault_persists(items: Seq<Seq<char>>, count: int)
    requires
        0 <= count <= items.len(),
        order_products_from(items.take(count)) is Err,
    ensures
        order_products_from(items) == order_products_from(items.take(count)),
    decreases items.len() - count,
{
    if count == items.len() {
        assert(items.take(count) =~= items);
    } else {
        let next = items.take(count + 1);
        assert(next.drop_last() =~= items.take(count));
        lemma_fault_persists(items, count + 1);
    }
}

/// The server's answer to a created order: the order and its lines, in the
/// server's order.
#[derive(Debug, Clone, PartialEq)]
pub struct CreateOrderResponse {
    pub order: Order,
    pub order_products: Vec<OrderProduct>,
}

/// The mathematical content of a [`CreateOrderResponse`].
pub struct CreateOrderResponseView {
    pub order: OrderView,
    pub order_products: Seq<OrderProductView>,
}

impl View for CreateOrderResponse {
    type V = CreateOrderResponseView;

    open spec fn view(&self) -> CreateOrderResponseView {
        CreateOrderResponseView {
            order: self.order@,
            order_products: self.order_products@.map_values(|p: OrderProduct| p@),
        }
    }
}

impl CreateOrderResponseView {
    /// The answer that the members of a JSON object describe: the order under
    /// `order`, the lines as an array under `order_products`. Both must be
    /// there. A fault in the order is reported before one in the lines.
    pub open spec fn from_members(members: Seq<Member>) -> Result<
        CreateOrderResponseView,
        Seq<char>,
    > {
        let order = match member_value(members, "order"@) {
            Some(raw) => OrderView::from_json(raw),
            None => Err(missing_field("order"@)),
        };
        let order_products = match member_value(members, "order_products"@) {
            Some(raw) => match json_array_parse(raw) {
                Ok(items) => order_products_from(items),
                Err(cause) => Err(cause),
            },
            None => Err(missing_field("order_products"@)),
        };
        if order is Err {
            Err(order->Err_0)
        } else if order_products is Err {
            Err(order_products->Err_0)
        } else {
            Ok(
                CreateOrderResponseView {
                    order: order->Ok_0,
                    order_products: order_products->Ok_0,
                },
            )
        }
    }

    /// The answer that a JSON document describes.
    pub open spec fn from_json(document: Seq<char>) -> Result<CreateOrderResponseView, Seq<char>> {
        match json_object_parse(document) {
            Ok(members) => CreateOrderResponseView::from_members(members),
            Err(cause) => Err(cause),
        }
    }
}

/// Reads the lines of an answer from the items of a JSON array, each item
/// being the JSON text of one line.
pub fn order_products_from_items(items: &Vec<String>) -> (r: Result<Vec<OrderProduct>, String>)
    ensures
        match order_products_from(texts_view(items@)) {
            Ok(lines) => r matches Ok(v) && v@.map_values(|p: OrderProduct| p@) == lines,
            Err(cause) => r matches Err(e) && e@ == cause,
        },
{
    let ghost texts = texts_view(items@);
    let mut lines: Vec<OrderProduct> = Vec::new();
    let mut i: usize = 0;
    assert(texts.take(0) =~= Seq::<Seq<char>>::empty());
    assert(lines@.map_values(|p: OrderProduct| p@) =~= Seq::<OrderProductView>::empty());
    while i < items.len()
        invariant
            0 <= i <= items.len(),
            texts == texts_view(items@),
            order_products_from(texts.take(i as int)) == Ok::<Seq<OrderProductView>, Seq<char>>(
                lines@.map_values(|p: OrderProduct| p@),
            ),
        decreases items.len() - i,
    {
        let ghost before = lines@.map_values(|p: OrderProduct| p@);
        proof {
            let next = texts.take(i + 1);
            assert(next.drop_last() =~= texts.take(i as int));
            assert(next.last() == items@[i as int]@);
        }
        let members = match split_object(items[i].as_str()) {
            Ok(members) => members,
            Err(cause) => {
                proof {
                    lemma_fault_persists(texts, i + 1);
                }
                return Err(cause);
            },
        };
        let line = match OrderProduct::from_members(&members) {
            Ok(line) => line,
            Err(cause) => {
                proof {
                    lemma_fault_persists(texts, i + 1);
                }
                return Err(cause);
            },
        };
        lines.push(line);
        assert(lines@.map_values(|p: OrderProduct| p@) =~= before.push(line@));
        i = i + 1;
    }
    assert(texts.take(i as int) =~= texts);
    Ok(lines)
}

impl CreateOrderResponse {
    /// Reads an answer from the members of a JSON object.
    pub fn from_members(members: &Vec<JsonMember>) -> (r: Result<CreateOrderResponse, String>)
        ensures
            match CreateOrderResponseView::from_members(members_view(members@)) {
                Ok(answer) => r matches Ok(a) && a@ == answer,
                Err(cause) => r matches Err(e) && e@ == cause,
            },
    {
        let order = match find_member(members, "order") {
            Some(raw) => {
                let order_members = match split_object(raw) {
                    Ok(m) => m,
                    Err(cause) => return Err(cause),
                };
                match Order::from_members(&order_members) {
                    Ok(order) => order,
                    Err(cause) => return Err(cause),
                }
            },
            None => return Err(missing("order")),
        };
        let order_products = match find_member(members, "order_products") {
            Some(raw) => {
                let items = match split_array(raw) {
                    Ok(items) => items,
                    Err(cause) => return Err(cause),
                };
                match order_products_from_items(&items) {
                    Ok(lines) => lines,
                    Err(cause) => return Err(cause),
                }
            },
            None => return Err(missing("order_products")),
        };
        Ok(CreateOrderResponse { order, order_products })
    }

    /// Reads the server's answer from a JSON document; a refusal is reported
    /// as a codec failure. Amounts stay the text that the server sent.
    pub fn from_json(document: &str) -> (r: Result<CreateOrderResponse, Error>)
        ensures
            match CreateOrderResponseView::from_json(document@) {
                Ok(answer) => r matches Ok(a) && a@ == answer,
                Err(cause) => r matches Err(e) && e@ == ErrorView::Json(cause),
            },
    {
        let members = match split_object(document) {
            Ok(members) => members,
            Err(cause) => return Err(Error::Json(cause)),
        };
        match CreateOrderResponse::from_members(&members) {
            Ok(answer) => Ok(answer),
            Err(cause) => Err(Error::Json(cause)),
        }
    }
}

} // verus!
