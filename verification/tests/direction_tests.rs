use n3x::direction::{buy_sell_string_to_enum, direction_string, OfferDirection};

#[test]
fn direction_strings_are_the_variant_names() {
    assert_eq!(direction_string(OfferDirection::Buy), "Buy");
    assert_eq!(direction_string(OfferDirection::Sell), "Sell");
}

#[test]
fn direction_parsing_accepts_synonyms_in_any_case() {
    assert_eq!(buy_sell_string_to_enum("buy".to_string()), Some(OfferDirection::Buy));
    assert_eq!(buy_sell_string_to_enum("BUYING".to_string()), Some(OfferDirection::Buy));
    assert_eq!(buy_sell_string_to_enum("Sell".to_string()), Some(OfferDirection::Sell));
    assert_eq!(buy_sell_string_to_enum("sElLiNg".to_string()), Some(OfferDirection::Sell));
}

#[test]
fn direction_string_is_read_back_as_the_direction() {
    for direction in [OfferDirection::Buy, OfferDirection::Sell] {
        assert_eq!(buy_sell_string_to_enum(direction_string(direction)), Some(direction));
    }
}

#[test]
fn direction_parsing_refuses_everything_else() {
    let inputs = [
        "", " ", "b", "bu", "buy ", " buy", "buys", "buyin", "buyingg", "sel", "sells", "sell\n",
        "seller", "purchase", "buy sell", "bυy", "ＢＵＹ", "buy\u{0}", "\u{212a}",
    ];
    for input in inputs {
        assert_eq!(buy_sell_string_to_enum(input.to_string()), None, "{:?}", input);
    }
}

#[test]
fn direction_parsing_agrees_with_lowercasing_the_input() {
    let inputs = [
        "Buy", "bUY", "BuYiNg", "SELL", "Selling", "sell", "İ", "buy\u{130}ng", "SELLİNG", "ſell",
        "\u{212a}", "BUY\u{307}",
    ];
    for input in inputs {
        let expected = match input.to_lowercase().as_str() {
            "buy" | "buying" => Some(OfferDirection::Buy),
            "sell" | "selling" => Some(OfferDirection::Sell),
            _ => None,
        };
        assert_eq!(buy_sell_string_to_enum(input.to_string()), expected, "{:?}", input);
    }
}
