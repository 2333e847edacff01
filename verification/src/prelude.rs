//! The items that most callers need, in one place.

pub use crate::client::Client;
pub use crate::error::Error;
pub use crate::types::Addressbook;
pub use crate::types::CreateOrderProduct;
pub use crate::types::CreateOrderRequest;
pub use crate::types::CreateOrderResponse;
pub use crate::types::CustomerOrderReference;
pub use crate::types::OrderId;
pub use crate::types::ProductCode;
