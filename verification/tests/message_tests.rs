use n3x::cipher::has_cipher_shape;
use n3x::message::{
    confirm_from_value, confirm_to_value, message_from_value, message_to_value, offer_to_value,
    order_from_value, order_to_value, ConfirmContent, N3xMessage, OfferContent, OrderContent,
};
use n3x::text::same_text;
use serde_json::Value;

fn value(text: &str) -> Value {
    serde_json::from_str(text).unwrap()
}

#[test]
fn values_are_built_with_members_in_their_order() {
    let order = OrderContent { offer_id: "abc123".to_string(), quantity: 500, price: 64000 };
    assert_eq!(
        order_to_value(&order).to_string(),
        "{\"offer_id\":\"abc123\",\"quantity\":500,\"price\":64000}"
    );
    let confirm =
        ConfirmContent { order_id: "order-7".to_string(), status_code: "accepted".to_string() };
    assert_eq!(
        confirm_to_value(&confirm).to_string(),
        "{\"order_id\":\"order-7\",\"status_code\":\"accepted\"}"
    );
    assert_eq!(
        offer_to_value(&OfferContent { quantity: 1000, price: -65000 }).to_string(),
        "{\"quantity\":1000,\"price\":-65000}"
    );
    assert_eq!(
        message_to_value(&N3xMessage::Confirm(confirm)).to_string(),
        "{\"Confirm\":{\"order_id\":\"order-7\",\"status_code\":\"accepted\"}}"
    );
}

#[test]
fn values_are_read_back_as_they_were_built() {
    let order = OrderContent { offer_id: "abc123".to_string(), quantity: 500, price: 64000 };
    assert_eq!(order_from_value(&order_to_value(&order)), Some(order.clone()));
    let confirm =
        ConfirmContent { order_id: "order-7".to_string(), status_code: "accepted".to_string() };
    assert_eq!(confirm_from_value(&confirm_to_value(&confirm)), Some(confirm.clone()));
    for message in [N3xMessage::Order(order), N3xMessage::Confirm(confirm)] {
        assert_eq!(message_from_value(&message_to_value(&message)), Some(message));
    }
}

#[test]
fn members_are_found_in_any_order_and_others_are_passed_over() {
    assert_eq!(
        order_from_value(&value(
            "{\"price\":-1,\"extra\":{\"offer_id\":\"no\"},\"offer_id\":\"yes\",\"quantity\":2}"
        )),
        Some(OrderContent { offer_id: "yes".to_string(), quantity: 2, price: -1 })
    );
    assert_eq!(
        confirm_from_value(&value("{\"status_code\":\"s\",\"order_id\":\"o\",\"n\":null}")),
        Some(ConfirmContent { order_id: "o".to_string(), status_code: "s".to_string() })
    );
}

#[test]
fn values_of_another_shape_hold_nothing() {
    assert_eq!(order_from_value(&value("[\"a\",1,2]")), None);
    assert_eq!(order_from_value(&value("{\"offer_id\":\"a\",\"quantity\":\"1\",\"price\":2}")), None);
    assert_eq!(order_from_value(&value("{\"offer_id\":\"a\",\"quantity\":1,\"price\":2.0}")), None);
    assert_eq!(confirm_from_value(&value("\"Confirm\"")), None);
    assert_eq!(confirm_from_value(&value("{\"order_id\":\"a\",\"status_code\":1}")), None);
    assert_eq!(message_from_value(&value("{}")), None);
    assert_eq!(message_from_value(&value("{\"order\":{\"offer_id\":\"a\",\"quantity\":1,\"price\":2}}")), None);
    assert_eq!(
        message_from_value(&value(
            "{\"Order\":{\"offer_id\":\"a\",\"quantity\":1,\"price\":2},\"also\":1}"
        )),
        None
    );
    assert_eq!(
        message_from_value(&value("{\"Confirm\":{\"offer_id\":\"a\",\"quantity\":1,\"price\":2}}")),
        None
    );
}

#[test]
fn same_text_compares_characters() {
    assert!(same_text("", ""));
    assert!(same_text("n3x_header", "n3x_header"));
    assert!(!same_text("n3x_header", "n3x_heade"));
    assert!(!same_text("Buy", "buy"));
    assert!(same_text("\u{2603}", "\u{2603}"));
}

#[test]
fn cipher_shape_is_judged_by_the_end_of_the_content() {
    assert!(has_cipher_shape("?iv=AAAAAAAAAAAAAAAAAAAAAA=="));
    assert!(has_cipher_shape("anything at all?iv=!!!!!!!!!!!!!!!!!!!!!!=="));
    assert!(has_cipher_shape("\u{2603}?iv=\u{2603}\u{2603}\u{2603}\u{2603}AAAAAAAAAAAAAAAAAA=="));
    assert!(!has_cipher_shape(""));
    assert!(!has_cipher_shape("iv=AAAAAAAAAAAAAAAAAAAAAA=="));
    assert!(!has_cipher_shape("?iv=AAAAAAAAAAAAAAAAAAAAAAA="));
    assert!(!has_cipher_shape("?iv=AAAAAAAAAAAAAAAAAAAAAAAA"));
    assert!(!has_cipher_shape("?iv=AAAAAAAAAAAAAAAAAAAAA=="));
    assert!(!has_cipher_shape("?iv=AAAAAAAAAAAAAAAAAAAAAAA=="));
    assert!(!has_cipher_shape("?IV=AAAAAAAAAAAAAAAAAAAAAA=="));
}
