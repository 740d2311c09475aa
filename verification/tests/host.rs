use poll::host::is_reserved_key;
use poll::msg::{CustomResponse, MigrateMsg};

#[test]
fn keys_with_a_leading_underscore_are_reserved() {
    assert!(is_reserved_key("_contract_address"));
    assert!(is_reserved_key("_"));
    assert!(!is_reserved_key(""));
    assert!(!is_reserved_key("action"));
    assert!(!is_reserved_key("a_b"));
    assert!(!is_reserved_key("é_"));
}

#[test]
fn custom_response_holds_its_text() {
    let response = CustomResponse::new("hello".to_string());
    assert_eq!(response.val(), "hello");
    assert_eq!(response, CustomResponse::new("hello".to_string()));
}

#[test]
fn migrate_msg_carries_nothing() {
    assert_eq!(MigrateMsg {}, MigrateMsg {});
}
