//! The client: a checked base URL, optional credentials, and everything about
//! an order-creation call that can be decided without the network. A call has
//! two halves: [`Client::prepare_create_order`] says what is to be sent, and
//! [`Client::read_create_order_answer`] says what the server's answer means.
//! Sending the one and receiving the other is the caller's part, and so is the
//! transport, which is to be set up as [`Client::transport_settings`] says.

use vstd::prelude::*;

use crate::auth::basic_authorization;
use crate::auth::basic_header;
use crate::auth::is_header_text;
use crate::error::is_success;
use crate::error::is_success_status;
use crate::error::status_error;
use crate::error::Error;
use crate::error::ErrorView;
use crate::types::text_view;
use crate::types::CreateOrderRequest;
use crate::types::CreateOrderRequestView;
use crate::types::CreateOrderResponse;
use crate::types::CreateOrderResponseView;

verus! {

/// Why `url` refuses a text as an absolute URL, in its own words; `None` for
/// a text that it accepts.
pub uninterp spec fn url_refusal(text: Seq<char>) -> Option<Seq<char>>;

/// Calls `Url::parse` and, where it refuses, renders its error. Trusted: the
/// outcome depends on the text alone.
#[verifier::external_body]
fn url_parse_error(text: &str) -> (r: Option<String>)
    ensures
        text_view(r) == url_refusal(text@),
{
    match url::Url::parse(text) {
        Ok(_) => None,
        Err(e) => Some(e.to_string()),
    }
}

/// The address of the order-creation endpoint under a base URL.
pub open spec fn endpoint_url(base_url: Seq<char>) -> Seq<char> {
    base_url + "/api_customer/orders"@
}

/// The `Authorization` header value that goes with the credentials: none
/// without credentials.
pub open spec fn authorization_value(credentials: Option<(Seq<char>, Seq<char>)>) -> Option<
    Seq<char>,
> {
    match credentials {
        Some((identifier, token)) => Some(basic_header(identifier, token)),
        None => None,
    }
}

/// How the transport is to be set up. The values are fixed.
#[derive(Debug, Clone, PartialEq, Eq)]
pub struct TransportSettings {
    /// The most that a whole request may take, in seconds.
    pub timeout_secs: u64,
    /// The most that establishing a connection may take, in seconds.
    pub connect_timeout_secs: u64,
    /// The `User-Agent` header of every request.
    pub user_agent: String,
    /// The `Content-Type` header of every request.
    pub content_type: String,
}

/// An order-creation call, ready to be sent as a POST request.
#[derive(Debug, Clone, PartialEq, Eq)]
pub struct PreparedRequest {
    /// Where the request goes.
    pub url: String,
    /// The body: the request as JSON.
    pub body: String,
    /// The value of the `Authorization` header, where credentials are set.
    pub authorization: Option<String>,
}

/// The mathematical content of a [`PreparedRequest`].
pub struct PreparedRequestView {
    pub url: Seq<char>,
    pub body: Seq<char>,
    pub authorization: Option<Seq<char>>,
}

impl View for PreparedRequest {
    type V = PreparedRequestView;

    open spec fn view(&self) -> PreparedRequestView {
        PreparedRequestView {
            url: self.url@,
            body: self.body@,
            authorization: text_view(self.authorization),
        }
    }
}

/// What a request looks like for a client and an order.
pub open spec fn prepared(client: ClientView, request: CreateOrderRequestView) -> PreparedRequestView {
    PreparedRequestView {
        url: endpoint_url(client.base_url),
        body: request.json(),
        authorization: authorization_value(client.credentials),
    }
}

/// What is reported for an answer in the success class whose body is not the
/// expected document.
pub open spec fn decode_failure(cause: Seq<char>) -> Seq<char> {
    "error decoding response body: "@ + cause
}

/// What an answer means. With a status in the success class the body is the
/// created order; where it cannot be read as one, that is a transport
/// failure. Any other status is the failure it stands for.
pub open spec fn create_order_outcome(status: u16, body: Seq<char>) -> Result<
    CreateOrderResponseView,
    ErrorView,
> {
    if is_success_status(status) {
        match CreateOrderResponseView::from_json(body) {
            Ok(answer) => Ok(answer),
            Err(cause) => Err(ErrorView::Http(decode_failure(cause))),
        }
    } else {
        Err(status_error(status, body))
    }
}

/// An order counts as created only on a status in the success class, and a
/// failure names the status exactly when the status is outside that class.
pub proof fn lemma_outcome_and_status(status: u16, body: Seq<char>)
    ensures
        create_order_outcome(status, body) is Ok ==> is_success_status(status),
        create_order_outcome(status, body) matches Err(failure) ==> failure.status_code() == (
        if is_success_status(status) {
            None
        } else {
            Some(status)
        }),
{
}

/// A client for one server. A client without credentials is a valid client.
#[derive(Debug, Clone)]
pub struct Client {
    base_url: String,
    credentials: Option<(String, String)>,
}

/// The mathematical content of a [`Client`].
pub struct ClientView {
    pub base_url: Seq<char>,
    /// Identifier and token.
    pub credentials: Option<(Seq<char>, Seq<char>)>,
}

impl View for Client {
    type V = ClientView;

    closed spec fn view(&self) -> ClientView {
        ClientView {
            base_url: self.base_url@,
            credentials: match self.credentials {
                Some((identifier, token)) => Some((identifier@, token@)),
                None => None,
            },
        }
    }
}

impl Client {
    /// Makes a client from a base URL and the outcome of checking it: the
    /// reason for which it was refused, or `None` where it was accepted. The
    /// outcome is taken as it is given; the URL itself is not looked at, and
    /// is stored exactly as given.
    pub fn from_url_check(base_url: &str, refusal: Option<String>) -> (r: Result<Client, Error>)
        ensures
            match refusal {
                None => r matches Ok(client) && client@ == (ClientView {
                    base_url: base_url@,
                    credentials: None,
                }),
                Some(cause) => r matches Err(e) && e@ == ErrorView::InvalidUrl(
                    "Invalid base URL: "@ + cause@,
                ),
            },
    {
        match refusal {
            None => Ok(Client { base_url: base_url.to_owned(), credentials: None }),
            Some(cause) => {
                let mut message = "Invalid base URL: ".to_owned();
                message.append(cause.as_str());
                Err(Error::InvalidUrl(message))
            },
        }
    }

    /// Makes a client for the server at `base_url`. A text that is a
    /// well-formed absolute URL is accepted and stored exactly as given; any
    /// other is refused with `InvalidUrl`.
    pub fn new(base_url: &str) -> (r: Result<Client, Error>)
        ensures
            match url_refusal(base_url@) {
                None => r matches Ok(client) && client@ == (ClientView {
                    base_url: base_url@,
                    credentials: None,
                }),
                Some(cause) => r matches Err(e) && e@ == ErrorView::InvalidUrl(
                    "Invalid base URL: "@ + cause,
                ),
            },
    {
        Client::from_url_check(base_url, url_parse_error(base_url))
    }

    /// Sets the credentials: an identifier and a token. They replace any
    /// earlier pair and are not examined.
    pub fn with_credentials(self, email: &str, token: &str) -> (r: Client)
        ensures
            r@ == (ClientView { base_url: self@.base_url, credentials: Some((email@, token@)) }),
    {
        Client { base_url: self.base_url, credentials: Some((email.to_owned(), token.to_owned())) }
    }

    /// The base URL.
    pub fn base_url(&self) -> (r: &str)
        ensures
            r@ == self@.base_url,
    {
        self.base_url.as_str()
    }

    /// The credentials, identifier first, where they are set.
    pub fn credentials(&self) -> (r: Option<(&str, &str)>)
        ensures
            match r {
                Some((identifier, token)) => self@.credentials == Some((identifier@, token@)),
                None => self@.credentials is None,
            },
    {
        match &self.credentials {
            Some((identifier, token)) => Some((identifier.as_str(), token.as_str())),
            None => None,
        }
    }

    /// How the transport under this client is to be set up: 30 seconds for a
    /// whole request, 10 seconds to connect, and the two fixed headers.
    pub fn transport_settings(&self) -> (r: TransportSettings)
        ensures
            r.timeout_secs == 30,
            r.connect_timeout_secs == 10,
            r.user_agent@ == "ecommerce-api-client/0.1.0"@,
            r.content_type@ == "application/json"@,
    {
        TransportSettings {
            timeout_secs: 30,
            connect_timeout_secs: 10,
            user_agent: "ecommerce-api-client/0.1.0".to_owned(),
            content_type: "application/json".to_owned(),
        }
    }

    /// The address that order-creation requests go to.
    pub fn endpoint(&self) -> (r: String)
        ensures
            r@ == endpoint_url(self@.base_url),
    {
        let mut url = self.base_url.clone();
        url.append("/api_customer/orders");
        url
    }

    /// The value of the `Authorization` header: none without credentials.
    /// Base64 text is always a legal header value, so this never fails.
    pub fn authorization(&self) -> (r: Result<Option<String>, Error>)
        ensures
            r matches Ok(header) && text_view(header) == authorization_value(self@.credentials),
            r matches Ok(Some(header)) ==> is_header_text(header@),
    {
        match &self.credentials {
            Some((identifier, token)) => {
                match basic_authorization(identifier.as_str(), token.as_str()) {
                    Ok(header) => Ok(Some(header)),
                    Err(e) => Err(e),
                }
            },
            None => Ok(None),
        }
    }

    /// Prepares the call that creates an order: the endpoint under the base
    /// URL, the request as JSON, and the `Authorization` header where
    /// credentials are set. Nothing is sent. Every call prepares anew; two
    /// calls for one request are two orders once sent.
    pub fn prepare_create_order(&self, request: &CreateOrderRequest) -> (r: Result<
        PreparedRequest,
        Error,
    >)
        ensures
            r matches Ok(call) && call@ == prepared(self@, request@),
            r matches Ok(call) ==> (call.authorization matches Some(header) ==> is_header_text(
                header@,
            )),
    {
        let url = self.endpoint();
        let body = request.to_json();
        match self.authorization() {
            Ok(authorization) => Ok(PreparedRequest { url, body, authorization }),
            Err(e) => Err(e),
        }
    }

    /// Reads the server's answer to an order-creation call from its status
    /// and the text of its body. For a status outside the success class the
    /// body may be empty where it could not be read.
    pub fn read_create_order_answer(status: u16, body: String) -> (r: Result<
        CreateOrderResponse,
        Error,
    >)
        ensures
            match create_order_outcome(status, body@) {
                Ok(answer) => r matches Ok(a) && a@ == answer,
                Err(failure) => r matches Err(e) && e@ == failure,
            },
    {
        if is_success(status) {
            match CreateOrderResponse::from_json(body.as_str()) {
                Ok(answer) => Ok(answer),
                Err(Error::Json(cause)) => {
                    let mut message = "error decoding response body: ".to_owned();
                    message.append(cause.as_str());
                    Err(Error::Http(message))
                },
                Err(other) => Err(other),
            }
        } else {
            Err(Error::from_status(status, body))
        }
    }
}

} // verus!
