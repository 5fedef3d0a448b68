//! The boundary to `nostr_sdk`: keys and encrypted contents pass as texts,
//! and the crate's functions turn them into what they stand for.
//!
//! Of the items below only [`has_cipher_shape`] is proved. The others are
//! taken on trust; each names the functions of `nostr_sdk` it stands for.
use crate::text::same_text;
use nostr_sdk::secp256k1::{SecretKey, XOnlyPublicKey};
use vstd::prelude::*;

verus! {

/// The length of what ends an encrypted content: `?iv=` and the 24
/// characters that 16 bytes take in base64.
pub const CIPHER_TAIL_LENGTH: usize = 28;

/// What `nostr_sdk::nips::nip04::decrypt` gives for a content and the two
/// keys of which `secret` and `sender` are the hexadecimal texts. `None`
/// where one of the two is not the text of a key, or where `decrypt` returns
/// an error.
pub uninterp spec fn opened_text(
    secret: Seq<char>,
    sender: Seq<char>,
    content: Seq<char>,
) -> Option<Seq<char>>;

/// Whether `XOnlyPublicKey::from_str` reads a text as a public key.
pub uninterp spec fn public_key_text(text: Seq<char>) -> bool;

/// An encrypted content ends with `?iv=` and 24 more characters, of which
/// the last two are `=`: an initialisation vector of 16 bytes in padded
/// base64.
pub open spec fn cipher_shaped(content: Seq<char>) -> bool {
    let length = content.len() as int;
    &&& length >= CIPHER_TAIL_LENGTH
    &&& content.subrange(length - 28, length - 24) == "?iv="@
    &&& content.subrange(length - 2, length) == "=="@
}

/// A public key in hexadecimal has 64 characters, each a digit or a letter
/// from `a` to `f` in either case.
pub open spec fn hex_key_shaped(text: Seq<char>) -> bool {
    &&& text.len() == 64
    &&& forall|i: int|
        0 <= i < text.len() ==> {
            let c = #[trigger] text[i];
            ('0' <= c <= '9') || ('a' <= c <= 'f') || ('A' <= c <= 'F')
        }
}

/// The text of a string that may be absent.
pub open spec fn opened_view(opened: Option<String>) -> Option<Seq<char>> {
    match opened {
        Some(text) => Some(text@),
        None => None,
    }
}

/// Tells whether a content ends as an encrypted content does.
pub fn has_cipher_shape(content: &str) -> (shaped: bool)
    ensures
        shaped == cipher_shaped(content@),
{
    let length = content.unicode_len();
    if length < CIPHER_TAIL_LENGTH {
        return false;
    }
    same_text(content.substring_char(length - 28, length - 24), "?iv=") && same_text(
        content.substring_char(length - 2, length),
        "==",
    )
}

/// `nostr_sdk::nips::nip04::decrypt`, with the two keys read from their
/// hexadecimal texts by `SecretKey::from_str` and `XOnlyPublicKey::from_str`.
/// Trusted: the result depends on the three texts alone, and is what
/// [`opened_text`] names.
///
/// `decrypt` splits the content at `?iv=` and gives an error unless there
/// are two parts. It decodes both from base64, which is an error too where
/// it fails, and then panics if the second part came to other than 16
/// bytes. Where the content ends as [`cipher_shaped`] asks and has two
/// parts, the second has 24 characters with two of padding at its end, which
/// are 16 bytes if they are base64 at all. So no content that meets the
/// `requires` makes it panic, and no content that fails it could be opened.
#[verifier::external_body]
pub(crate) fn open_cipher(secret: &str, sender: &str, content: &str) -> (opened: Option<String>)
    requires
        cipher_shaped(content@),
    ensures
        opened_view(opened) == opened_text(secret@, sender@, content@),
{
    let key = secret.parse::<SecretKey>().ok()?;
    let author = sender.parse::<XOnlyPublicKey>().ok()?;
    nostr_sdk::nips::nip04::decrypt(&key, &author, content).ok()
}

/// `XOnlyPublicKey::from_str`, asked only whether it succeeds. Trusted: that
/// depends on the text alone, and is what [`public_key_text`] names; and it
/// succeeds on no text but 64 hexadecimal digits.
#[verifier::external_body]
pub(crate) fn reads_as_public_key(text: &str) -> (valid: bool)
    ensures
        valid == public_key_text(text@),
        valid ==> hex_key_shaped(text@),
{
    text.parse::<XOnlyPublicKey>().is_ok()
}

} // verus!
