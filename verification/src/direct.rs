//! Direct messages on their way out: an order or a confirmation in its
//! envelope, addressed to a participant. Encrypting and sending is the
//! transport's part.
use crate::cipher::{hex_key_shaped, public_key_text, reads_as_public_key};
use crate::envelope::{encode, encoded};
use crate::message::{ConfirmContent, ConfirmView, MessageView, N3xMessage, OrderContent, OrderView};
use vstd::prelude::*;

verus! {

/// A text to be encrypted for a recipient and sent.
#[derive(Clone, Debug, PartialEq, Eq)]
pub struct DirectMessage {
    /// The recipient's public key, in hexadecimal.
    pub recipient: String,
    /// The envelope of the message.
    pub body: String,
}

/// Why no direct message was made.
#[derive(Clone, Copy, Debug, PartialEq, Eq, Structural)]
pub enum ComposeError {
    /// The recipient is not a public key.
    InvalidRecipient,
}

/// A direct message, with its texts as sequences of characters.
pub struct DirectMessageView {
    pub recipient: Seq<char>,
    pub body: Seq<char>,
}

impl View for DirectMessage {
    type V = DirectMessageView;

    open spec fn view(&self) -> DirectMessageView {
        DirectMessageView { recipient: self.recipient@, body: self.body@ }
    }
}

/// The view of what composing a direct message returns.
pub open spec fn compose_view(outcome: Result<DirectMessage, ComposeError>) -> Result<
    DirectMessageView,
    ComposeError,
> {
    match outcome {
        Ok(message) => Ok(message@),
        Err(error) => Err(error),
    }
}

/// The direct message that takes `message` to `recipient`, given whether
/// the recipient is a public key.
pub open spec fn addressed(valid: bool, recipient: Seq<char>, message: MessageView) -> Result<
    DirectMessageView,
    ComposeError,
> {
    if valid {
        Ok(DirectMessageView { recipient, body: encoded(message) })
    } else {
        Err(ComposeError::InvalidRecipient)
    }
}

/// Puts a message in its envelope and addresses it, given whether the
/// recipient is a public key.
pub fn address_message(valid: bool, recipient: &str, message: &N3xMessage) -> (outcome: Result<
    DirectMessage,
    ComposeError,
>)
    ensures
        compose_view(outcome) == addressed(valid, recipient@, message@),
{
    if valid {
        Ok(DirectMessage { recipient: String::from_str(recipient), body: encode(message) })
    } else {
        Err(ComposeError::InvalidRecipient)
    }
}

/// Makes the direct message that sends an order to the participant with the
/// public key `recipient`. Fails where `recipient` is not a public key, as
/// every text is that is not 64 hexadecimal digits.
pub fn compose_order(recipient: &str, offer_id: String, quantity: u64, price: i64) -> (outcome:
    Result<DirectMessage, ComposeError>)
    ensures
        compose_view(outcome) == addressed(
            public_key_text(recipient@),
            recipient@,
            MessageView::Order(OrderView { offer_id: offer_id@, quantity, price }),
        ),
        !hex_key_shaped(recipient@) ==> outcome == Err::<DirectMessage, ComposeError>(
            ComposeError::InvalidRecipient,
        ),
{
    let message = N3xMessage::Order(OrderContent { offer_id, quantity, price });
    address_message(reads_as_public_key(recipient), recipient, &message)
}

/// Makes the direct message that sends a confirmation to the participant
/// with the public key `recipient`. Fails where `recipient` is not a public
/// key, as every text is that is not 64 hexadecimal digits.
pub fn compose_confirmation(recipient: &str, order_id: String, status_code: String) -> (outcome:
    Result<DirectMessage, ComposeError>)
    ensures
        compose_view(outcome) == addressed(
            public_key_text(recipient@),
            recipient@,
            MessageView::Confirm(ConfirmView { order_id: order_id@, status_code: status_code@ }),
        ),
        !hex_key_shaped(recipient@) ==> outcome == Err::<DirectMessage, ComposeError>(
            ComposeError::InvalidRecipient,
        ),
{
    let message = N3xMessage::Confirm(ConfirmContent { order_id, status_code });
    address_message(reads_as_public_key(recipient), recipient, &message)
}

} // verus!
