use ecommerce_api_client::auth::{basic_authorization, basic_header_value};
use ecommerce_api_client::client::PreparedRequest;
use ecommerce_api_client::types::{Addressbook, CreateOrderProduct, CreateOrderRequest, ProductCode};
use ecommerce_api_client::{Client, Error};

#[test]
fn test_client_creation() {
    let client = Client::new("https://api.example.com").unwrap();
    assert_eq!(client.base_url(), "https://api.example.com");
    assert!(client.credentials().is_none());
}

#[test]
fn test_client_with_credentials() {
    let client = Client::new("https://api.example.com")
        .unwrap()
        .with_credentials("test@example.com", "token123");

    assert!(client.credentials().is_some());
    let (email, token) = client.credentials().unwrap();
    assert_eq!(email, "test@example.com");
    assert_eq!(token, "token123");
}

#[test]
fn test_invalid_url() {
    let result = Client::new("not-a-url");
    assert!(result.is_err());
    assert!(matches!(result.unwrap_err(), Error::InvalidUrl(_)));
}

#[test]
fn invalid_url_reports_the_cause() {
    let error = Client::new("not-a-url").unwrap_err();
    assert_eq!(
        error,
        Error::InvalidUrl("Invalid base URL: relative URL without a base".to_string())
    );
    let error = Client::new("").unwrap_err();
    assert_eq!(
        error,
        Error::InvalidUrl("Invalid base URL: relative URL without a base".to_string())
    );
    let error = Client::new("https://").unwrap_err();
    assert_eq!(error, Error::InvalidUrl("Invalid base URL: empty host".to_string()));
}

#[test]
fn base_url_is_stored_as_given() {
    for text in [
        "https://api.example.com",
        "https://api.example.com/",
        "HTTP://Example.COM:8080/shop/../v1?x=1#top",
        "http://127.0.0.1:3000",
    ] {
        let client = Client::new(text).unwrap();
        assert_eq!(client.base_url(), text);
        assert!(client.credentials().is_none());
    }
}

#[test]
fn from_url_check_follows_the_check() {
    let client = Client::from_url_check("anything at all", None).unwrap();
    assert_eq!(client.base_url(), "anything at all");
    assert!(client.credentials().is_none());
    let error = Client::from_url_check("https://ok.example", Some("no".to_string())).unwrap_err();
    assert_eq!(error, Error::InvalidUrl("Invalid base URL: no".to_string()));
}

#[test]
fn credentials_are_kept_exactly_and_replaced() {
    let client = Client::new("https://api.example.com").unwrap().with_credentials("", "");
    assert_eq!(client.credentials(), Some(("", "")));
    let client = client.with_credentials(" a:b ", "t\u{e9}\n");
    assert_eq!(client.credentials(), Some((" a:b ", "t\u{e9}\n")));
    assert_eq!(client.base_url(), "https://api.example.com");
}

#[test]
fn transport_settings_are_fixed() {
    let settings = Client::new("https://api.example.com").unwrap().transport_settings();
    assert_eq!(settings.timeout_secs, 30);
    assert_eq!(settings.connect_timeout_secs, 10);
    assert_eq!(settings.user_agent, "ecommerce-api-client/0.1.0");
    assert_eq!(settings.content_type, "application/json");
}

#[test]
fn endpoint_appends_the_path() {
    let client = Client::new("https://api.example.com").unwrap();
    assert_eq!(client.endpoint(), "https://api.example.com/api_customer/orders");
    let client = Client::new("https://api.example.com/").unwrap();
    assert_eq!(client.endpoint(), "https://api.example.com//api_customer/orders");
}

#[test]
fn authorization_is_absent_without_credentials() {
    let client = Client::new("https://api.example.com").unwrap();
    assert_eq!(client.authorization(), Ok(None));
}

#[test]
fn basic_authorization_encodes_the_pair() {
    assert_eq!(basic_authorization("u@x.com", "tok"), Ok("Basic dUB4LmNvbTp0b2s=".to_string()));
    assert_eq!(basic_authorization("", ""), Ok("Basic Og==".to_string()));
    assert_eq!(
        basic_authorization("Aladdin", "open sesame"),
        Ok("Basic QWxhZGRpbjpvcGVuIHNlc2FtZQ==".to_string())
    );
    assert_eq!(basic_authorization("\u{fc}ser", "p\n"), Ok("Basic w7xzZXI6cAo=".to_string()));
}

#[test]
fn basic_header_value_refuses_illegal_characters() {
    assert_eq!(basic_header_value("abc="), Ok("Basic abc=".to_string()));
    assert_eq!(basic_header_value(""), Ok("Basic ".to_string()));
    assert_eq!(basic_header_value("a\tb"), Ok("Basic a\tb".to_string()));
    assert_eq!(basic_header_value("caf\u{e9}"), Ok("Basic caf\u{e9}".to_string()));
    let refused =
        Error::InvalidCredentials("Invalid auth header: failed to parse header value".to_string());
    assert_eq!(basic_header_value("a\nb"), Err(refused.clone()));
    assert_eq!(basic_header_value("a\u{7f}"), Err(refused.clone()));
    assert_eq!(basic_header_value("\u{0}"), Err(refused));
}

#[test]
fn prepared_request_for_one_product() {
    let client = Client::new("https://api.example.com").unwrap().with_credentials("u@x.com", "tok");
    let request = CreateOrderRequest {
        order_products: vec![CreateOrderProduct {
            product_code: Some(ProductCode("SKU-123".to_string())),
            quantity: 1,
            addressbook: Some(Addressbook { country: "US".to_string(), ..Default::default() }),
            ..Default::default()
        }],
        ..Default::default()
    };
    let call = client.prepare_create_order(&request).unwrap();
    assert_eq!(call.url, "https://api.example.com/api_customer/orders");
    assert_eq!(call.authorization, Some("Basic dUB4LmNvbTp0b2s=".to_string()));
    assert!(call.body.contains(
        r#""order_products":[{"product_code":"SKU-123","quantity":1,"addressbook":{"country":"US"}}]"#
    ));
    assert_eq!(
        call.body,
        r#"{"order_products":[{"product_code":"SKU-123","quantity":1,"addressbook":{"country":"US"}}]}"#
    );
}

#[test]
fn prepared_request_without_credentials() {
    let client = Client::new("http://localhost:8080").unwrap();
    let call = client.prepare_create_order(&CreateOrderRequest::default()).unwrap();
    assert_eq!(
        call,
        PreparedRequest {
            url: "http://localhost:8080/api_customer/orders".to_string(),
            body: r#"{"order_products":[]}"#.to_string(),
            authorization: None,
        }
    );
}

#[test]
fn preparing_twice_gives_the_same_request() {
    let client = Client::new("https://api.example.com").unwrap().with_credentials("a", "b");
    let request = CreateOrderRequest {
        customer_order_reference: Some("R-1".to_string()),
        ..Default::default()
    };
    assert_eq!(
        client.prepare_create_order(&request).unwrap(),
        client.prepare_create_order(&request).unwrap()
    );
}

fn shareable<T: Send + Sync + Clone>(value: &T) -> T {
    value.clone()
}

#[test]
fn client_can_be_shared_and_copied() {
    let client = Client::new("https://api.example.com").unwrap().with_credentials("a", "b");
    let copy = shareable(&client);
    assert_eq!(copy.base_url(), client.base_url());
    assert_eq!(copy.credentials(), client.credentials());
    assert_eq!(copy.authorization(), client.authorization());
}
