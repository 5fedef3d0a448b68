use n3x::direct::{
    address_message, compose_confirmation, compose_order, ComposeError, DirectMessage,
};
use n3x::message::{N3xMessage, OrderContent};

const RECIPIENT: &str = "79dff8f82963424e0bb02708a22e44b4980893e3a4be0fa3cb60a43b946764e3";

#[test]
fn order_is_addressed_and_enveloped() {
    assert_eq!(
        compose_order(RECIPIENT, "abc123".to_string(), 500, 64000),
        Ok(DirectMessage {
            recipient: RECIPIENT.to_string(),
            body: "n3x_header{\"Order\":{\"offer_id\":\"abc123\",\"quantity\":500,\"price\":64000}}"
                .to_string(),
        })
    );
}

#[test]
fn confirmation_is_addressed_and_enveloped() {
    assert_eq!(
        compose_confirmation(RECIPIENT, "order-7".to_string(), "rejected".to_string()),
        Ok(DirectMessage {
            recipient: RECIPIENT.to_string(),
            body: "n3x_header{\"Confirm\":{\"order_id\":\"order-7\",\"status_code\":\"rejected\"}}"
                .to_string(),
        })
    );
}

#[test]
fn recipient_that_is_no_public_key_is_refused() {
    let zeros = "0".repeat(64);
    let long = format!("{}00", RECIPIENT);
    let recipients = [
        "",
        "abc",
        "npub1080l37pfvdpyuzasyuy2ytjykjvq3ylr5jlqlg7tvzjrh9r8vn3sf5yaph",
        &RECIPIENT[..63],
        long.as_str(),
        "79dff8f82963424e0bb02708a22e44b4980893e3a4be0fa3cb60a43b946764eg",
        zeros.as_str(),
    ];
    for recipient in recipients {
        assert_eq!(
            compose_order(recipient, "abc123".to_string(), 1, 1),
            Err(ComposeError::InvalidRecipient),
            "{}",
            recipient
        );
        assert_eq!(
            compose_confirmation(recipient, "a".to_string(), "b".to_string()),
            Err(ComposeError::InvalidRecipient),
            "{}",
            recipient
        );
    }
}

#[test]
fn recipient_may_be_written_in_capitals() {
    let capitals = RECIPIENT.to_uppercase();
    let outcome = compose_order(&capitals, "abc123".to_string(), 1, 1);
    assert_eq!(outcome.map(|message| message.recipient), Ok(capitals));
}

#[test]
fn address_message_goes_by_the_verdict_it_is_given() {
    let message = N3xMessage::Order(OrderContent {
        offer_id: "abc123".to_string(),
        quantity: 1,
        price: -1,
    });
    assert_eq!(
        address_message(false, RECIPIENT, &message),
        Err(ComposeError::InvalidRecipient)
    );
    assert_eq!(
        address_message(true, "whoever", &message),
        Ok(DirectMessage {
            recipient: "whoever".to_string(),
            body: "n3x_header{\"Order\":{\"offer_id\":\"abc123\",\"quantity\":1,\"price\":-1}}"
                .to_string(),
        })
    );
}
