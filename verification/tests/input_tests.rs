use n3x::direction::OfferDirection;
use n3x::input::{
    corrective_message, read_direction, read_price, read_quantity, strip_line_end, InputError,
};

#[test]
fn quantity_is_decimal_digits_with_an_optional_plus() {
    assert_eq!(read_quantity("0"), Ok(0));
    assert_eq!(read_quantity("1000"), Ok(1000));
    assert_eq!(read_quantity("+7"), Ok(7));
    assert_eq!(read_quantity("007"), Ok(7));
    assert_eq!(read_quantity("18446744073709551615"), Ok(u64::MAX));
    assert_eq!(read_quantity("00000000000000000000018446744073709551615"), Ok(u64::MAX));
}

#[test]
fn quantity_agrees_with_the_standard_parser() {
    let texts = [
        "", "+", "-", "0", "-0", "+0", "12", "1 2", " 12", "12 ", "1e3", "1.0", "0x10", "１２",
        "18446744073709551615", "18446744073709551616", "99999999999999999999", "+-1", "++1",
        "1+", "٣", "12\n",
    ];
    for text in texts {
        assert_eq!(
            read_quantity(text).ok(),
            text.parse::<u64>().ok(),
            "{:?}",
            text
        );
    }
}

#[test]
fn text_that_is_no_quantity_is_refused() {
    for text in ["", "+", "-1", "abc", "18446744073709551616", "1.5", "1 000", "１"] {
        assert_eq!(read_quantity(text), Err(InputError::Quantity), "{:?}", text);
    }
}

#[test]
fn price_is_decimal_digits_with_an_optional_sign() {
    assert_eq!(read_price("65000"), Ok(65000));
    assert_eq!(read_price("-65000"), Ok(-65000));
    assert_eq!(read_price("+65000"), Ok(65000));
    assert_eq!(read_price("-0"), Ok(0));
    assert_eq!(read_price("9223372036854775807"), Ok(i64::MAX));
    assert_eq!(read_price("-9223372036854775808"), Ok(i64::MIN));
    assert_eq!(read_price("-0009223372036854775808"), Ok(i64::MIN));
}

#[test]
fn price_agrees_with_the_standard_parser() {
    let texts = [
        "", "+", "-", "0", "-0", "+0", "12", "-12", "--12", "+-12", "-+12", "1-", " 12", "-1.0",
        "9223372036854775807", "9223372036854775808", "-9223372036854775808",
        "-9223372036854775809", "-99999999999999999999", "−5", "5\n",
    ];
    for text in texts {
        assert_eq!(read_price(text).ok(), text.parse::<i64>().ok(), "{:?}", text);
    }
}

#[test]
fn text_that_is_no_price_is_refused() {
    for text in ["", "-", "+", "9223372036854775808", "-9223372036854775809", "ten", "1,5"] {
        assert_eq!(read_price(text), Err(InputError::Price), "{:?}", text);
    }
}

#[test]
fn direction_is_read_or_refused() {
    assert_eq!(read_direction("Buy"), Ok(OfferDirection::Buy));
    assert_eq!(read_direction("selling"), Ok(OfferDirection::Sell));
    assert_eq!(read_direction("purchase"), Err(InputError::Direction));
    assert_eq!(read_direction(""), Err(InputError::Direction));
}

#[test]
fn line_end_is_taken_off_once() {
    assert_eq!(strip_line_end("buy\n"), "buy");
    assert_eq!(strip_line_end("buy"), "buy");
    assert_eq!(strip_line_end("buy\n\n"), "buy\n");
    assert_eq!(strip_line_end("\n"), "");
    assert_eq!(strip_line_end(""), "");
    assert_eq!(strip_line_end("snow \u{2603}\n"), "snow \u{2603}");
    assert_eq!(strip_line_end("snow \u{2603}"), "snow \u{2603}");
}

#[test]
fn each_error_has_its_corrective_message() {
    assert_eq!(
        corrective_message(InputError::Direction),
        "Unrecognized input. Please specify either 'Buy', 'Buying', 'Sell', or 'Selling'"
    );
    assert_eq!(
        corrective_message(InputError::Quantity),
        "Unrecognized input. Please input a positive integer"
    );
    assert_eq!(
        corrective_message(InputError::Price),
        "Unrecognized input. Please input an integer"
    );
}
