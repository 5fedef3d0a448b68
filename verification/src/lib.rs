//! The protocol of a small marketplace that runs over a relay network.
//!
//! Participants announce offers as tagged records, find each other's offers
//! with filters, and settle the terms in encrypted direct messages: an
//! order, and a confirmation in answer to it. This library holds what every
//! participant must agree on, and proves it: how a message is written and
//! read ([`envelope`], [`message`]), how an offer is tagged and found
//! ([`offer`], [`filter`], [`direction`]), what becomes of each notification
//! from the network ([`dispatch`]), and in what order the operations of one
//! participant use its session ([`gate`]). Connecting, signing, sending and
//! asking the user are left to the program around it.
//!
//! JSON is written and read by `serde_json`, and direct messages are opened
//! by `nostr_sdk`; [`json`] and [`cipher`] say what is taken on trust about
//! the two.
pub mod cipher;
pub mod direct;
pub mod direction;
pub mod dispatch;
pub mod envelope;
pub mod filter;
pub mod gate;
pub mod input;
pub mod json;
pub mod message;
pub mod offer;
pub mod record;
pub mod text;
pub mod tree;
