//! The data model: the identifiers, what an order-creation request holds,
//! and what the server answers.

pub mod identifiers;
pub mod request;
pub mod response;

use vstd::prelude::*;

pub use identifiers::CustomerOrderReference;
pub use identifiers::OrderId;
pub use identifiers::ProductCode;
pub use request::Addressbook;
pub use request::AddressbookView;
pub use request::CreateOrderProduct;
pub use request::CreateOrderProductView;
pub use request::CreateOrderRequest;
pub use request::CreateOrderRequestView;
pub use response::CreateOrderResponse;
pub use response::CreateOrderResponseView;
pub use response::Order;
pub use response::OrderProduct;
pub use response::OrderProductView;
pub use response::OrderView;

verus! {

/// The text of an optional string.
pub open spec fn text_view(text: Option<String>) -> Option<Seq<char>> {
    match text {
        Some(t) => Some(t@),
        None => None,
    }
}

} // verus!
