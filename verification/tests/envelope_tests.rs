use n3x::envelope::{decode, encode, frame, interpret_payload, unframe, EnvelopeMalformed};
use n3x::message::{ConfirmContent, N3xMessage, OrderContent};

fn sample_order() -> N3xMessage {
    N3xMessage::Order(OrderContent {
        offer_id: "abc123".to_string(),
        quantity: 500,
        price: 64000,
    })
}

fn sample_confirm() -> N3xMessage {
    N3xMessage::Confirm(ConfirmContent {
        order_id: "order-7".to_string(),
        status_code: "accepted".to_string(),
    })
}

#[test]
fn order_envelope_has_header_and_compact_json() {
    assert_eq!(
        encode(&sample_order()),
        "n3x_header{\"Order\":{\"offer_id\":\"abc123\",\"quantity\":500,\"price\":64000}}"
    );
}

#[test]
fn confirm_envelope_has_header_and_compact_json() {
    assert_eq!(
        encode(&sample_confirm()),
        "n3x_header{\"Confirm\":{\"order_id\":\"order-7\",\"status_code\":\"accepted\"}}"
    );
}

#[test]
fn decode_gives_back_what_encode_took() {
    for message in [sample_order(), sample_confirm()] {
        assert_eq!(decode(&encode(&message)), Ok(Some(message)));
    }
}

#[test]
fn round_trip_keeps_extreme_numbers_and_odd_texts() {
    let extremes = [
        (u64::MAX, i64::MIN),
        (u64::MAX, i64::MAX),
        (0, 0),
        (0, -1),
    ];
    for (quantity, price) in extremes {
        let message = N3xMessage::Order(OrderContent {
            offer_id: "quote \" backslash \\ newline \n tab \t nul \u{0} snow \u{2603} \u{1F600}"
                .to_string(),
            quantity,
            price,
        });
        assert_eq!(decode(&encode(&message)), Ok(Some(message)));
    }
    let empty = N3xMessage::Confirm(ConfirmContent {
        order_id: String::new(),
        status_code: String::new(),
    });
    assert_eq!(decode(&encode(&empty)), Ok(Some(empty)));
}

#[test]
fn text_without_header_is_not_ours() {
    assert_eq!(decode("hello there, how are you?"), Ok(None));
    assert_eq!(decode(""), Ok(None));
    assert_eq!(decode("n3x"), Ok(None));
    assert_eq!(decode("n3x_heade"), Ok(None));
    assert_eq!(decode("N3X_HEADER{\"Order\":{}}"), Ok(None));
    assert_eq!(
        decode("n3x-header{\"Order\":{\"offer_id\":\"a\",\"quantity\":1,\"price\":1}}"),
        Ok(None)
    );
    assert_eq!(decode("\u{2603}3x_header{}"), Ok(None));
}

#[test]
fn header_alone_is_malformed() {
    assert_eq!(decode("n3x_header"), Err(EnvelopeMalformed::NotJson));
}

#[test]
fn header_before_broken_json_is_malformed() {
    assert_eq!(decode("n3x_header{\"Order\":"), Err(EnvelopeMalformed::NotJson));
    assert_eq!(decode("n3x_headernot json"), Err(EnvelopeMalformed::NotJson));
}

#[test]
fn header_before_json_of_another_shape_is_malformed() {
    let wrong = [
        "n3x_header{}",
        "n3x_header[]",
        "n3x_header42",
        "n3x_header\"Order\"",
        "n3x_header{\"Offer\":{\"quantity\":1,\"price\":1}}",
        "n3x_header{\"Order\":{\"offer_id\":\"a\",\"quantity\":1}}",
        "n3x_header{\"Order\":{\"offer_id\":\"a\",\"quantity\":-1,\"price\":1}}",
        "n3x_header{\"Order\":{\"offer_id\":\"a\",\"quantity\":1.5,\"price\":1}}",
        "n3x_header{\"Order\":{\"offer_id\":7,\"quantity\":1,\"price\":1}}",
        "n3x_header{\"Order\":{\"offer_id\":\"a\",\"quantity\":1,\"price\":9223372036854775808}}",
        "n3x_header{\"Order\":{\"offer_id\":\"a\",\"quantity\":18446744073709551616,\"price\":1}}",
        "n3x_header{\"Order\":[\"a\",1,1]}",
        "n3x_header{\"Confirm\":{\"order_id\":\"a\"}}",
        "n3x_header{\"Confirm\":{\"order_id\":\"a\",\"status_code\":null}}",
        "n3x_header{\"Order\":{\"offer_id\":\"a\",\"quantity\":1,\"price\":1},\"Confirm\":{\"order_id\":\"a\",\"status_code\":\"b\"}}",
    ];
    for raw in wrong {
        assert_eq!(decode(raw), Err(EnvelopeMalformed::WrongShape), "{}", raw);
    }
}

#[test]
fn decode_reads_json_however_it_is_laid_out() {
    let raw = "n3x_header \n{ \"Order\" : { \"price\" : -5, \"note\" : [1, 2], \"quantity\" : 18446744073709551615, \"offer_id\" : \"\\u0061bc\" } } ";
    assert_eq!(
        decode(raw),
        Ok(Some(N3xMessage::Order(OrderContent {
            offer_id: "abc".to_string(),
            quantity: u64::MAX,
            price: -5,
        })))
    );
}

#[test]
fn frame_and_unframe_are_inverse() {
    assert_eq!(frame("{}"), "n3x_header{}");
    assert_eq!(unframe("n3x_header{}"), Some("{}"));
    assert_eq!(unframe(&frame("")), Some(""));
    assert_eq!(unframe(&frame("n3x_header")), Some("n3x_header"));
    assert_eq!(unframe("n3x_heade"), None);
    assert_eq!(unframe("n3x_header\u{2603}tail"), Some("\u{2603}tail"));
}

#[test]
fn interpret_payload_tells_the_two_failures_apart() {
    assert_eq!(
        interpret_payload(serde_json::from_str("{")),
        Err(EnvelopeMalformed::NotJson)
    );
    assert_eq!(
        interpret_payload(serde_json::from_str("{\"Order\":1}")),
        Err(EnvelopeMalformed::WrongShape)
    );
    assert_eq!(
        interpret_payload(serde_json::from_str(
            "{\"Confirm\":{\"order_id\":\"order-7\",\"status_code\":\"accepted\"}}"
        )),
        Ok(sample_confirm())
    );
}

#[test]
fn a_member_written_twice_counts_as_written_last() {
    let raw = "n3x_header{\"Confirm\":{\"order_id\":\"first\",\"status_code\":\"ok\",\"order_id\":\"second\"}}";
    assert_eq!(
        decode(raw),
        Ok(Some(N3xMessage::Confirm(ConfirmContent {
            order_id: "second".to_string(),
            status_code: "ok".to_string(),
        })))
    );
}
