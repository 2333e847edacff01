//! The identifiers: single texts with a type of their own, written on the
//! wire as bare JSON strings.

use vstd::prelude::*;

use crate::error::Error;
use crate::error::ErrorView;
use crate::json::json_string_literal;
use crate::json::json_string_parse;
use crate::json::quote;
use crate::json::unquote;

verus! {

/// Reads a document that holds one JSON string; a refusal is reported as a
/// codec failure with the codec's own words.
fn read_string(document: &str) -> (r: Result<String, Error>)
    ensures
        match json_string_parse(document@) {
            Ok(text) => r matches Ok(s) && s@ == text,
            Err(cause) => r matches Err(e) && e@ == ErrorView::Json(cause),
        },
{
    match unquote(document) {
        Ok(text) => Ok(text),
        Err(cause) => Err(Error::Json(cause)),
    }
}

/// The identifier of an order. The text is kept exactly as given.
#[derive(Debug, Clone, PartialEq, Eq)]
pub struct OrderId(pub String);

impl View for OrderId {
    type V = Seq<char>;

    open spec fn view(&self) -> Seq<char> {
        self.0@
    }
}

impl OrderId {
    /// Writes the identifier as JSON: a bare string, not an object.
    pub fn to_json(&self) -> (r: String)
        ensures
            r@ == json_string_literal(self@),
    {
        quote(self.0.as_str())
    }

    /// Reads an identifier from a JSON document that holds one string.
    pub fn from_json(document: &str) -> (r: Result<OrderId, Error>)
        ensures
            match json_string_parse(document@) {
                Ok(text) => r matches Ok(id) && id@ == text,
                Err(cause) => r matches Err(e) && e@ == ErrorView::Json(cause),
            },
    {
        match read_string(document) {
            Ok(text) => Ok(OrderId(text)),
            Err(e) => Err(e),
        }
    }
}

/// The customer's own reference for an order. The text is kept exactly as
/// given.
#[derive(Debug, Clone, PartialEq, Eq)]
pub struct CustomerOrderReference(pub String);

impl View for CustomerOrderReference {
    type V = Seq<char>;

    open spec fn view(&self) -> Seq<char> {
        self.0@
    }
}

impl CustomerOrderReference {
    /// Writes the reference as JSON: a bare string, not an object.
    pub fn to_json(&self) -> (r: String)
        ensures
            r@ == json_string_literal(self@),
    {
        quote(self.0.as_str())
    }

    /// Reads a reference from a JSON document that holds one string.
    pub fn from_json(document: &str) -> (r: Result<CustomerOrderReference, Error>)
        ensures
            match json_string_parse(document@) {
                Ok(text) => r matches Ok(reference) && reference@ == text,
                Err(cause) => r matches Err(e) && e@ == ErrorView::Json(cause),
            },
    {
        match read_string(document) {
            Ok(text) => Ok(CustomerOrderReference(text)),
            Err(e) => Err(e),
        }
    }
}

/// The code of a product. The text is kept exactly as given.
#[derive(Debug, Clone, PartialEq, Eq)]
pub struct ProductCode(pub String);

impl View for ProductCode {
    type V = Seq<char>;

    open spec fn view(&self) -> Seq<char> {
        self.0@
    }
}

impl ProductCode {
    /// Writes the code as JSON: a bare string, not an object.
    pub fn to_json(&self) -> (r: String)
        ensures
            r@ == json_string_literal(self@),
    {
        quote(self.0.as_str())
    }

    /// Reads a code from a JSON document that holds one string.
    pub fn from_json(document: &str) -> (r: Result<ProductCode, Error>)
        ensures
            match json_string_parse(document@) {
                Ok(text) => r matches Ok(code) && code@ == text,
                Err(cause) => r matches Err(e) && e@ == ErrorView::Json(cause),
            },
    {
        match read_string(document) {
            Ok(text) => Ok(ProductCode(text)),
            Err(e) => Err(e),
        }
    }
}

} // verus!
