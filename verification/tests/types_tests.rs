use ecommerce_api_client::json::Decimal;
use ecommerce_api_client::types::{
    Addressbook, CreateOrderProduct, CreateOrderRequest, CustomerOrderReference, OrderId,
    ProductCode,
};
use ecommerce_api_client::Error;

#[test]
fn test_serialize_create_order_request() {
    let request = CreateOrderRequest {
        customer_order_reference: Some("70000001".to_string()),
        addressbook: Some(Addressbook { country: "GB".to_string(), ..Default::default() }),
        order_products: vec![
            CreateOrderProduct {
                product_code: Some(ProductCode("274181".to_string())),
                quantity: 1,
                addressbook: Some(Addressbook {
                    address: Some("Covent Garden".to_string()),
                    address2: Some("".to_string()),
                    city: Some("London".to_string()),
                    province: Some("".to_string()),
                    postal_code: Some("NR33 7NL".to_string()),
                    country: "GB".to_string(),
                    email: Some("endconsumer@bigecommercewebsite.com".to_string()),
                    name: Some("Test Company".to_string()),
                    phone: Some("0684541247".to_string()),
                    comments: Some("".to_string()),
                }),
                ..Default::default()
            },
            CreateOrderProduct {
                product_code: Some(ProductCode("99999".to_string())),
                quantity: 1,
                addressbook: Some(Addressbook {
                    address: Some("Covent Garden".to_string()),
                    address2: Some("".to_string()),
                    city: Some("London".to_string()),
                    province: Some("".to_string()),
                    postal_code: Some("NR33 7NL".to_string()),
                    country: "GB".to_string(),
                    email: Some("endconsumer@bigecommercewebsite.com".to_string()),
                    name: Some("Test Company".to_string()),
                    phone: Some("0684541247".to_string()),
                    comments: Some("".to_string()),
                }),
                ..Default::default()
            },
        ],
        comments_customer: None,
    };

    let json = request.to_json();

    // Verify key fields are present in JSON
    assert!(json.contains("70000001"));
    assert!(json.contains("274181"));
    assert!(json.contains("99999"));
    assert!(json.contains("Covent Garden"));
    assert!(json.contains("Test Company"));

    // Verify the JSON structure
    let parsed: serde_json::Value = serde_json::from_str(&json).unwrap();
    assert_eq!(parsed["customer_order_reference"], "70000001");
    assert_eq!(parsed["addressbook"]["country"], "GB");
    assert_eq!(parsed["order_products"].as_array().unwrap().len(), 2);
    assert_eq!(parsed["order_products"][0]["product_code"], "274181");
    assert_eq!(parsed["order_products"][0]["quantity"], 1);
    assert_eq!(parsed["order_products"][0]["addressbook"]["country"], "GB");
}

#[test]
fn test_optional_fields_serialization() {
    let minimal_request = CreateOrderRequest {
        customer_order_reference: None,
        order_products: vec![CreateOrderProduct {
            product_code: Some(ProductCode("SKU-456".to_string())),
            quantity: 1,
            addressbook: None,
            unit_price: None,
            currency: None,
        }],
        addressbook: None,
        comments_customer: None,
    };

    let json = minimal_request.to_json();
    let parsed: serde_json::Value = serde_json::from_str(&json).unwrap();

    // Verify optional fields are not present when None
    assert!(parsed.get("customer_order_reference").is_none());
    assert!(parsed.get("addressbook").is_none());
    assert!(parsed.get("comments_customer").is_none());
    assert!(parsed["order_products"][0].get("unit_price").is_none());
    assert!(parsed["order_products"][0].get("addressbook").is_none());
}

#[test]
fn test_strongly_typed_wrappers() {
    let order_id = OrderId("ord_123".to_string());
    let customer_ref = CustomerOrderReference("ORDER-001".to_string());
    let product_code = ProductCode("SKU-456".to_string());

    // Test serialization of wrappers
    assert_eq!(order_id.to_json(), "\"ord_123\"");
    assert_eq!(customer_ref.to_json(), "\"ORDER-001\"");
    assert_eq!(product_code.to_json(), "\"SKU-456\"");

    // Test deserialization of wrappers
    assert_eq!(OrderId::from_json("\"ord_456\"").unwrap().0, "ord_456");
    assert_eq!(CustomerOrderReference::from_json("\"ORDER-002\"").unwrap().0, "ORDER-002");
    assert_eq!(ProductCode::from_json("\"SKU-789\"").unwrap().0, "SKU-789");
}

#[test]
fn test_address_default() {
    let address = Addressbook::default();
    assert_eq!(address.country, "US");
    assert!(address.name.is_none());
    assert!(address.address.is_none());
}

#[test]
fn address_default_sets_nothing_but_the_country() {
    assert_eq!(
        Addressbook::default(),
        Addressbook {
            country: "US".to_string(),
            name: None,
            address: None,
            address2: None,
            city: None,
            province: None,
            postal_code: None,
            phone: None,
            email: None,
            comments: None,
        }
    );
    assert_eq!(Addressbook::default().to_json(), r#"{"country":"US"}"#);
}

#[test]
fn product_default_is_one_piece() {
    assert_eq!(
        CreateOrderProduct::default(),
        CreateOrderProduct {
            product_code: None,
            quantity: 1,
            addressbook: None,
            unit_price: None,
            currency: None,
        }
    );
    assert_eq!(CreateOrderProduct::default().to_json(), r#"{"quantity":1}"#);
}

#[test]
fn request_default_is_empty() {
    assert_eq!(
        CreateOrderRequest::default(),
        CreateOrderRequest {
            customer_order_reference: None,
            addressbook: None,
            order_products: vec![],
            comments_customer: None,
        }
    );
    assert_eq!(CreateOrderRequest::default().to_json(), r#"{"order_products":[]}"#);
}

#[test]
fn identifiers_keep_their_text() {
    for text in ["", " padded ", "UPPER lower", "with \"quotes\" and \\", "\u{e9}\u{4e2d}\u{1f600}"] {
        assert_eq!(OrderId(text.to_string()).0, text);
        assert_eq!(OrderId::from_json(&OrderId(text.to_string()).to_json()).unwrap().0, text);
        assert_eq!(
            CustomerOrderReference::from_json(
                &CustomerOrderReference(text.to_string()).to_json()
            )
            .unwrap()
            .0,
            text
        );
        assert_eq!(
            ProductCode::from_json(&ProductCode(text.to_string()).to_json()).unwrap().0,
            text
        );
    }
    assert_eq!(OrderId("a".to_string()), OrderId("a".to_string()));
    assert_ne!(OrderId("a".to_string()), OrderId("A".to_string()));
}

#[test]
fn identifiers_escape_what_json_requires() {
    assert_eq!(OrderId("a\"b\\c\n\t\u{1}/\u{7f}\u{e9}".to_string()).to_json(), "\"a\\\"b\\\\c\\n\\t\\u0001/\u{7f}\u{e9}\"");
    assert_eq!(OrderId::from_json("  \"a\\u0041\\n\"  ").unwrap().0, "aA\n");
}

#[test]
fn identifiers_refuse_what_is_no_string() {
    assert_eq!(
        OrderId::from_json("123"),
        Err(Error::Json("invalid type: integer `123`, expected a string at line 1 column 3".to_string()))
    );
    assert_eq!(
        ProductCode::from_json(""),
        Err(Error::Json("EOF while parsing a value at line 1 column 0".to_string()))
    );
    assert!(matches!(CustomerOrderReference::from_json("{\"0\":\"x\"}"), Err(Error::Json(_))));
    assert!(matches!(OrderId::from_json("\"open"), Err(Error::Json(_))));
    assert!(matches!(OrderId::from_json("\"a\" \"b\""), Err(Error::Json(_))));
    assert!(matches!(OrderId::from_json("null"), Err(Error::Json(_))));
}

#[test]
fn empty_optional_fields_are_written_as_empty_strings() {
    let request = CreateOrderRequest {
        customer_order_reference: Some(String::new()),
        addressbook: Some(Addressbook {
            country: String::new(),
            name: Some(String::new()),
            ..Default::default()
        }),
        order_products: vec![CreateOrderProduct {
            product_code: Some(ProductCode(String::new())),
            quantity: 0,
            addressbook: Some(Addressbook::default()),
            unit_price: Some(Decimal { mantissa: 0, scale: 0 }),
            currency: Some(String::new()),
        }],
        comments_customer: Some(String::new()),
    };
    assert_eq!(
        request.to_json(),
        concat_all(&[
            r#"{"customer_order_reference":"","addressbook":{"country":"","name":""},"#,
            r#""order_products":[{"product_code":"","quantity":0,"addressbook":{"country":"US"},"#,
            r#""unit_price":0,"currency":""}],"comments_customer":""}"#,
        ])
    );
    let parsed: serde_json::Value = serde_json::from_str(&request.to_json()).unwrap();
    assert_eq!(parsed["customer_order_reference"], "");
    assert_eq!(parsed["comments_customer"], "");
    assert_eq!(parsed["addressbook"]["name"], "");
    assert_eq!(parsed["order_products"][0]["currency"], "");
    assert_eq!(parsed["order_products"][0]["product_code"], "");
    assert!(parsed["addressbook"].get("city").is_none());
}

fn concat_all(parts: &[&str]) -> String {
    let mut out = String::new();
    for part in parts {
        out.push_str(part);
    }
    out
}

#[test]
fn every_address_field_has_its_key() {
    let address = Addressbook {
        country: "NL".to_string(),
        name: Some("n".to_string()),
        address: Some("a1".to_string()),
        address2: Some("a2".to_string()),
        city: Some("c".to_string()),
        province: Some("p".to_string()),
        postal_code: Some("pc".to_string()),
        phone: Some("ph".to_string()),
        email: Some("e".to_string()),
        comments: Some("co".to_string()),
    };
    assert_eq!(
        address.to_json(),
        concat_all(&[
            r#"{"country":"NL","name":"n","address":"a1","address2":"a2","city":"c","#,
            r#""province":"p","postal_code":"pc","phone":"ph","email":"e","comments":"co"}"#,
        ])
    );
    let only_last = Addressbook { comments: Some("x".to_string()), ..Default::default() };
    assert_eq!(only_last.to_json(), r#"{"country":"US","comments":"x"}"#);
    let parsed: serde_json::Value = serde_json::from_str(&only_last.to_json()).unwrap();
    for key in ["name", "address", "address2", "city", "province", "postal_code", "phone", "email"]
    {
        assert!(parsed.get(key).is_none());
    }
}

#[test]
fn product_fields_and_prices() {
    let product = CreateOrderProduct {
        product_code: None,
        quantity: 4294967295,
        addressbook: None,
        unit_price: Some(Decimal { mantissa: 9597, scale: 2 }),
        currency: Some("EUR".to_string()),
    };
    assert_eq!(product.to_json(), r#"{"quantity":4294967295,"unit_price":95.97,"currency":"EUR"}"#);
    let parsed: serde_json::Value = serde_json::from_str(&product.to_json()).unwrap();
    assert_eq!(parsed["unit_price"], 95.97);
    assert!(parsed.get("product_code").is_none());
    assert!(parsed.get("addressbook").is_none());
}

#[test]
fn products_keep_their_order() {
    let line = |code: &str, quantity: u32| CreateOrderProduct {
        product_code: Some(ProductCode(code.to_string())),
        quantity,
        ..Default::default()
    };
    let request = CreateOrderRequest {
        order_products: vec![line("b", 2), line("a", 1), line("b", 3)],
        ..Default::default()
    };
    assert_eq!(
        request.to_json(),
        concat_all(&[
            r#"{"order_products":[{"product_code":"b","quantity":2},"#,
            r#"{"product_code":"a","quantity":1},{"product_code":"b","quantity":3}]}"#,
        ])
    );
}

#[test]
fn texts_with_special_characters_stay_valid_json() {
    let text = "line1\nline2 \"quoted\" \\ back / tab\t \u{0} \u{1f} \u{7f} \u{e9}\u{1f600}";
    let request = CreateOrderRequest {
        customer_order_reference: Some(text.to_string()),
        comments_customer: Some(text.to_string()),
        order_products: vec![CreateOrderProduct {
            currency: Some(text.to_string()),
            ..Default::default()
        }],
        ..Default::default()
    };
    let parsed: serde_json::Value = serde_json::from_str(&request.to_json()).unwrap();
    assert_eq!(parsed["customer_order_reference"], text);
    assert_eq!(parsed["comments_customer"], text);
    assert_eq!(parsed["order_products"][0]["currency"], text);
}
