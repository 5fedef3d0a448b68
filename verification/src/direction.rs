//! The two directions of an offer, the text that stands for each in tags
//! and filters, and the words by which a user names them.
//!
//! Publishing and filtering take the text of a direction from the same
//! function, so that an offer is found under the value it was published
//! with.
use vstd::prelude::*;

verus! {

/// The side of the market an offer stands on.
#[derive(Clone, Copy, Debug, PartialEq, Eq, Structural)]
pub enum OfferDirection {
    Buy,
    Sell,
}

/// The text that stands for a direction in a record's tag and in a filter.
pub open spec fn direction_text(direction: OfferDirection) -> Seq<char> {
    match direction {
        OfferDirection::Buy => "Buy"@,
        OfferDirection::Sell => "Sell"@,
    }
}

/// A character with an ASCII capital replaced by its small letter.
pub open spec fn lower_char(c: char) -> char {
    if 'A' <= c <= 'Z' {
        ((c as u8) + 32) as char
    } else {
        c
    }
}

/// A text with every ASCII capital replaced by its small letter.
pub open spec fn lowered(text: Seq<char>) -> Seq<char> {
    Seq::new(text.len(), |i: int| lower_char(text[i]))
}

/// The direction that a user's input names, whatever the case of its
/// letters: `buy` and `buying` name `Buy`, `sell` and `selling` name
/// `Sell`, anything else names none.
pub open spec fn parsed_direction(input: Seq<char>) -> Option<OfferDirection> {
    let folded = lowered(input);
    if folded == "buy"@ || folded == "buying"@ {
        Some(OfferDirection::Buy)
    } else if folded == "sell"@ || folded == "selling"@ {
        Some(OfferDirection::Sell)
    } else {
        None
    }
}

/// Gives the text of a direction: `Buy` or `Sell`.
pub fn direction_string(direction: OfferDirection) -> (text: String)
    ensures
        text@ == direction_text(direction),
{
    match direction {
        OfferDirection::Buy => String::from_str("Buy"),
        OfferDirection::Sell => String::from_str("Sell"),
    }
}

fn to_lower(c: char) -> (folded: char)
    ensures
        folded == lower_char(c),
{
    if 'A' <= c && c <= 'Z' {
        ((c as u8) + 32) as char
    } else {
        c
    }
}

/// Tells whether `input`, with its ASCII capitals made small, is `word`.
fn is_word(input: &str, word: &str) -> (same: bool)
    ensures
        same == (lowered(input@) == word@),
{
    let length = input.unicode_len();
    if length != word.unicode_len() {
        return false;
    }
    let mut i: usize = 0;
    while i < length
        invariant
            i <= length,
            length == input@.len(),
            length == word@.len(),
            forall|j: int| 0 <= j < i ==> lower_char(input@[j]) == word@[j],
        decreases length - i,
    {
        if to_lower(input.get_char(i)) != word.get_char(i) {
            return false;
        }
        i += 1;
    }
    assert(lowered(input@) =~= word@);
    true
}

/// Reads a direction from what a user typed, whatever the case of its
/// letters.
pub fn buy_sell_string_to_enum(user_input: String) -> (direction: Option<OfferDirection>)
    ensures
        direction == parsed_direction(user_input@),
{
    let input = user_input.as_str();
    if is_word(input, "buy") || is_word(input, "buying") {
        Some(OfferDirection::Buy)
    } else if is_word(input, "sell") || is_word(input, "selling") {
        Some(OfferDirection::Sell)
    } else {
        None
    }
}

/// The two texts of the directions differ, and so do the four words.
pub proof fn lemma_direction_texts()
    ensures
        "Buy"@ != "Sell"@,
        lowered("Buy"@) == "buy"@,
        lowered("Sell"@) == "sell"@,
        "buy"@ != "sell"@,
        "buy"@ != "selling"@,
        "buying"@ != "sell"@,
        "buying"@ != "selling"@,
{
    reveal_strlit("Buy");
    reveal_strlit("Sell");
    reveal_strlit("buy");
    reveal_strlit("buying");
    reveal_strlit("sell");
    reveal_strlit("selling");
    assert(lowered("Sell"@) =~= "sell"@);
    assert("buying"@[0] != "selling"@[0]);
}

/// Reading the text of a direction gives the direction back.
pub proof fn lemma_direction_round_trip(direction: OfferDirection)
    ensures
        parsed_direction(direction_text(direction)) == Some(direction),
{
    lemma_direction_texts();
}

/// The case of the letters does not matter: two inputs that differ only in
/// the case of their ASCII letters name the same direction, or both none.
pub proof fn lemma_direction_ignores_case(first: Seq<char>, second: Seq<char>)
    requires
        lowered(first) == lowered(second),
    ensures
        parsed_direction(first) == parsed_direction(second),
{
}

/// An input names a direction only if, with its capitals made small, it is
/// one of the four words; every other input names none.
pub proof fn lemma_direction_words(input: Seq<char>)
    ensures
        parsed_direction(input) == Some(OfferDirection::Buy) <==> (lowered(input) == "buy"@
            || lowered(input) == "buying"@),
        parsed_direction(input) == Some(OfferDirection::Sell) <==> (lowered(input) == "sell"@
            || lowered(input) == "selling"@),
        parsed_direction(input) is None <==> !(lowered(input) == "buy"@ || lowered(input)
            == "buying"@ || lowered(input) == "sell"@ || lowered(input) == "selling"@),
{
    lemma_direction_texts();
}

} // verus!
