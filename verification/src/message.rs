//! The payloads that participants exchange, and their shape as JSON.
use crate::json::{json_tree, member_value, object_members};
use crate::tree::{lemma_member_index_push, member, JsonTree};
use serde_json::Value;
use vstd::prelude::*;

verus! {

/// What an offer announces: how much, in base units, and at what price.
#[derive(Clone, Debug, PartialEq, Eq)]
pub struct OfferContent {
    pub quantity: u64,
    pub price: i64,
}

/// A request to trade against a published offer.
#[derive(Clone, Debug, PartialEq, Eq)]
pub struct OrderContent {
    pub offer_id: String,
    pub quantity: u64,
    pub price: i64,
}

/// The answer to an order.
#[derive(Clone, Debug, PartialEq, Eq)]
pub struct ConfirmContent {
    pub order_id: String,
    pub status_code: String,
}

/// What a direct message between participants carries.
#[derive(Clone, Debug, PartialEq, Eq)]
pub enum N3xMessage {
    Order(OrderContent),
    Confirm(ConfirmContent),
}

/// An order, with its text as a sequence of characters.
pub struct OrderView {
    pub offer_id: Seq<char>,
    pub quantity: u64,
    pub price: i64,
}

/// A confirmation, with its texts as sequences of characters.
pub struct ConfirmView {
    pub order_id: Seq<char>,
    pub status_code: Seq<char>,
}

/// A message, with its texts as sequences of characters.
pub enum MessageView {
    Order(OrderView),
    Confirm(ConfirmView),
}

impl View for OrderContent {
    type V = OrderView;

    open spec fn view(&self) -> OrderView {
        OrderView { offer_id: self.offer_id@, quantity: self.quantity, price: self.price }
    }
}

impl View for ConfirmContent {
    type V = ConfirmView;

    open spec fn view(&self) -> ConfirmView {
        ConfirmView { order_id: self.order_id@, status_code: self.status_code@ }
    }
}

impl View for N3xMessage {
    type V = MessageView;

    open spec fn view(&self) -> MessageView {
        match self {
            N3xMessage::Order(order) => MessageView::Order(order@),
            N3xMessage::Confirm(confirm) => MessageView::Confirm(confirm@),
        }
    }
}

/// The JSON object of an offer's content: `quantity`, then `price`.
pub open spec fn offer_tree(quantity: u64, price: i64) -> JsonTree {
    JsonTree::Object(
        seq![
            ("quantity"@, JsonTree::Integer(quantity as int)),
            ("price"@, JsonTree::Integer(price as int)),
        ],
    )
}

/// The JSON object of an order: `offer_id`, `quantity`, `price`.
pub open spec fn order_tree(order: OrderView) -> JsonTree {
    JsonTree::Object(
        seq![
            ("offer_id"@, JsonTree::Text(order.offer_id)),
            ("quantity"@, JsonTree::Integer(order.quantity as int)),
            ("price"@, JsonTree::Integer(order.price as int)),
        ],
    )
}

/// The JSON object of a confirmation: `order_id`, `status_code`.
pub open spec fn confirm_tree(confirm: ConfirmView) -> JsonTree {
    JsonTree::Object(
        seq![
            ("order_id"@, JsonTree::Text(confirm.order_id)),
            ("status_code"@, JsonTree::Text(confirm.status_code)),
        ],
    )
}

/// The JSON of a message: an object with one member, named `Order` or
/// `Confirm` after the kind of payload, which holds the payload's object.
pub open spec fn message_tree(message: MessageView) -> JsonTree {
    match message {
        MessageView::Order(order) => JsonTree::Object(seq![("Order"@, order_tree(order))]),
        MessageView::Confirm(confirm) => JsonTree::Object(
            seq![("Confirm"@, confirm_tree(confirm))],
        ),
    }
}

/// The text of the member `key`, where that member is a string.
pub open spec fn text_member(members: Seq<(Seq<char>, JsonTree)>, key: Seq<char>) -> Option<
    Seq<char>,
> {
    match member(members, key) {
        Some(JsonTree::Text(text)) => Some(text),
        _ => None,
    }
}

/// The member `key` as a `u64`, where it is an integer in that range.
pub open spec fn u64_member(members: Seq<(Seq<char>, JsonTree)>, key: Seq<char>) -> Option<u64> {
    match member(members, key) {
        Some(JsonTree::Integer(n)) if 0 <= n <= u64::MAX => Some(n as u64),
        _ => None,
    }
}

/// The member `key` as an `i64`, where it is an integer in that range.
pub open spec fn i64_member(members: Seq<(Seq<char>, JsonTree)>, key: Seq<char>) -> Option<i64> {
    match member(members, key) {
        Some(JsonTree::Integer(n)) if i64::MIN <= n <= i64::MAX => Some(n as i64),
        _ => None,
    }
}

/// The order that a tree holds: the tree is an object whose member
/// `offer_id` is a string, whose `quantity` fits a `u64` and whose `price`
/// fits an `i64`. Other members are passed over.
pub open spec fn order_of_tree(tree: JsonTree) -> Option<OrderView> {
    match tree {
        JsonTree::Object(members) => match (
            text_member(members, "offer_id"@),
            u64_member(members, "quantity"@),
            i64_member(members, "price"@),
        ) {
            (Some(offer_id), Some(quantity), Some(price)) => Some(
                OrderView { offer_id, quantity, price },
            ),
            _ => None,
        },
        _ => None,
    }
}

/// The confirmation that a tree holds: the tree is an object whose members
/// `order_id` and `status_code` are strings. Other members are passed over.
pub open spec fn confirm_of_tree(tree: JsonTree) -> Option<ConfirmView> {
    match tree {
        JsonTree::Object(members) => match (
            text_member(members, "order_id"@),
            text_member(members, "status_code"@),
        ) {
            (Some(order_id), Some(status_code)) => Some(ConfirmView { order_id, status_code }),
            _ => None,
        },
        _ => None,
    }
}

/// The message that a tree holds: the tree is an object with exactly one
/// member, named `Order` or `Confirm`, which holds a payload of that kind.
pub open spec fn message_of_tree(tree: JsonTree) -> Option<MessageView> {
    match tree {
        JsonTree::Object(members) => if members.len() != 1 {
            None
        } else if members[0].0 == "Order"@ {
            match order_of_tree(members[0].1) {
                Some(order) => Some(MessageView::Order(order)),
                None => None,
            }
        } else if members[0].0 == "Confirm"@ {
            match confirm_of_tree(members[0].1) {
                Some(confirm) => Some(MessageView::Confirm(confirm)),
                None => None,
            }
        } else {
            None
        },
        _ => None,
    }
}

/// The names of the members of one object differ from each other.
pub proof fn lemma_member_names()
    ensures
        "quantity"@ != "price"@,
        "offer_id"@ != "quantity"@,
        "offer_id"@ != "price"@,
        "order_id"@ != "status_code"@,
        "Order"@ != "Confirm"@,
{
    reveal_strlit("quantity");
    reveal_strlit("price");
    reveal_strlit("offer_id");
    reveal_strlit("order_id");
    reveal_strlit("status_code");
    reveal_strlit("Order");
    reveal_strlit("Confirm");
    assert("offer_id"@[0] != "quantity"@[0]);
    assert("order_id"@.len() != "status_code"@.len());
    assert("Order"@.len() != "Confirm"@.len());
}

/// Reading the tree of an order gives the order back.
pub proof fn lemma_order_tree_round_trip(order: OrderView)
    ensures
        order_of_tree(order_tree(order)) == Some(order),
{
    lemma_member_names();
    let first = ("offer_id"@, JsonTree::Text(order.offer_id));
    let second = ("quantity"@, JsonTree::Integer(order.quantity as int));
    let third = ("price"@, JsonTree::Integer(order.price as int));
    let none = Seq::<(Seq<char>, JsonTree)>::empty();
    let members = order_tree(order)->Object_0;
    assert(members =~= none.push(first).push(second).push(third));
    lemma_member_index_push(none, first, "offer_id"@);
    lemma_member_index_push(none.push(first), second, "offer_id"@);
    lemma_member_index_push(none.push(first).push(second), third, "offer_id"@);
    lemma_member_index_push(none, first, "quantity"@);
    lemma_member_index_push(none.push(first), second, "quantity"@);
    lemma_member_index_push(none.push(first).push(second), third, "quantity"@);
    lemma_member_index_push(none, first, "price"@);
    lemma_member_index_push(none.push(first), second, "price"@);
    lemma_member_index_push(none.push(first).push(second), third, "price"@);
}

/// Reading the tree of a confirmation gives the confirmation back.
pub proof fn lemma_confirm_tree_round_trip(confirm: ConfirmView)
    ensures
        confirm_of_tree(confirm_tree(confirm)) == Some(confirm),
{
    lemma_member_names();
    let first = ("order_id"@, JsonTree::Text(confirm.order_id));
    let second = ("status_code"@, JsonTree::Text(confirm.status_code));
    let none = Seq::<(Seq<char>, JsonTree)>::empty();
    let members = confirm_tree(confirm)->Object_0;
    assert(members =~= none.push(first).push(second));
    lemma_member_index_push(none, first, "order_id"@);
    lemma_member_index_push(none.push(first), second, "order_id"@);
    lemma_member_index_push(none, first, "status_code"@);
    lemma_member_index_push(none.push(first), second, "status_code"@);
}

/// Reading the tree of a message gives the message back, whatever the
/// message: its kind, its texts and its numbers.
pub proof fn lemma_message_tree_round_trip(message: MessageView)
    ensures
        message_of_tree(message_tree(message)) == Some(message),
{
    lemma_member_names();
    match message {
        MessageView::Order(order) => lemma_order_tree_round_trip(order),
        MessageView::Confirm(confirm) => lemma_confirm_tree_round_trip(confirm),
    }
}

/// Builds the JSON value of an offer's content.
pub fn offer_to_value(offer: &OfferContent) -> (value: Value)
    ensures
        json_tree(value) == offer_tree(offer.quantity, offer.price),
{
    proof {
        lemma_member_names();
    }
    let mut map = serde_json::Map::new();
    let ghost none = object_members(map);
    map.insert(String::from_str("quantity"), Value::from(offer.quantity));
    let ghost one = object_members(map);
    proof {
        lemma_member_index_push(none, one[0], "price"@);
    }
    map.insert(String::from_str("price"), Value::from(offer.price));
    let value = Value::from(map);
    assert(json_tree(value)->Object_0 =~= offer_tree(offer.quantity, offer.price)->Object_0);
    value
}

/// Builds the JSON value of an order.
pub fn order_to_value(order: &OrderContent) -> (value: Value)
    ensures
        json_tree(value) == order_tree(order@),
{
    proof {
        lemma_member_names();
    }
    let mut map = serde_json::Map::new();
    let ghost none = object_members(map);
    map.insert(String::from_str("offer_id"), Value::from(order.offer_id.clone()));
    let ghost one = object_members(map);
    proof {
        lemma_member_index_push(none, one[0], "quantity"@);
    }
    map.insert(String::from_str("quantity"), Value::from(order.quantity));
    let ghost two = object_members(map);
    proof {
        lemma_member_index_push(none, one[0], "price"@);
        lemma_member_index_push(one, two[1], "price"@);
    }
    map.insert(String::from_str("price"), Value::from(order.price));
    let value = Value::from(map);
    assert(json_tree(value)->Object_0 =~= order_tree(order@)->Object_0);
    value
}

/// Builds the JSON value of a confirmation.
pub fn confirm_to_value(confirm: &ConfirmContent) -> (value: Value)
    ensures
        json_tree(value) == confirm_tree(confirm@),
{
    proof {
        lemma_member_names();
    }
    let mut map = serde_json::Map::new();
    let ghost none = object_members(map);
    map.insert(String::from_str("order_id"), Value::from(confirm.order_id.clone()));
    let ghost one = object_members(map);
    proof {
        lemma_member_index_push(none, one[0], "status_code"@);
    }
    map.insert(String::from_str("status_code"), Value::from(confirm.status_code.clone()));
    let value = Value::from(map);
    assert(json_tree(value)->Object_0 =~= confirm_tree(confirm@)->Object_0);
    value
}

/// Builds the JSON value of a message.
pub fn message_to_value(message: &N3xMessage) -> (value: Value)
    ensures
        json_tree(value) == message_tree(message@),
{
    let mut map = serde_json::Map::new();
    match message {
        N3xMessage::Order(order) => {
            map.insert(String::from_str("Order"), order_to_value(order));
        },
        N3xMessage::Confirm(confirm) => {
            map.insert(String::from_str("Confirm"), confirm_to_value(confirm));
        },
    }
    Value::from(map)
}

fn read_text(map: &serde_json::Map<String, Value>, key: &str) -> (text: Option<String>)
    ensures
        match text {
            Some(s) => text_member(object_members(*map), key@) == Some(s@),
            None => text_member(object_members(*map), key@) is None,
        },
{
    match member_value(map, key) {
        Some(value) => match value.as_str() {
            Some(s) => Some(String::from_str(s)),
            None => None,
        },
        None => None,
    }
}

fn read_u64(map: &serde_json::Map<String, Value>, key: &str) -> (number: Option<u64>)
    ensures
        number == u64_member(object_members(*map), key@),
{
    match member_value(map, key) {
        Some(value) => value.as_u64(),
        None => None,
    }
}

fn read_i64(map: &serde_json::Map<String, Value>, key: &str) -> (number: Option<i64>)
    ensures
        number == i64_member(object_members(*map), key@),
{
    match member_value(map, key) {
        Some(value) => value.as_i64(),
        None => None,
    }
}

/// Reads an order from a JSON value.
pub fn order_from_value(value: &Value) -> (order: Option<OrderContent>)
    ensures
        match order {
            Some(o) => order_of_tree(json_tree(*value)) == Some(o@),
            None => order_of_tree(json_tree(*value)) is None,
        },
{
    let map = match value.as_object() {
        Some(map) => map,
        None => { return None; },
    };
    let offer_id = match read_text(map, "offer_id") {
        Some(text) => text,
        None => { return None; },
    };
    let quantity = match read_u64(map, "quantity") {
        Some(number) => number,
        None => { return None; },
    };
    let price = match read_i64(map, "price") {
        Some(number) => number,
        None => { return None; },
    };
    Some(OrderContent { offer_id, quantity, price })
}

/// Reads a confirmation from a JSON value.
pub fn confirm_from_value(value: &Value) -> (confirm: Option<ConfirmContent>)
    ensures
        match confirm {
            Some(c) => confirm_of_tree(json_tree(*value)) == Some(c@),
            None => confirm_of_tree(json_tree(*value)) is None,
        },
{
    let map = match value.as_object() {
        Some(map) => map,
        None => { return None; },
    };
    let order_id = match read_text(map, "order_id") {
        Some(text) => text,
        None => { return None; },
    };
    let status_code = match read_text(map, "status_code") {
        Some(text) => text,
        None => { return None; },
    };
    Some(ConfirmContent { order_id, status_code })
}

/// Reads a message from a JSON value.
pub fn message_from_value(value: &Value) -> (message: Option<N3xMessage>)
    ensures
        match message {
            Some(m) => message_of_tree(json_tree(*value)) == Some(m@),
            None => message_of_tree(json_tree(*value)) is None,
        },
{
    proof {
        lemma_member_names();
    }
    let map = match value.as_object() {
        Some(map) => map,
        None => { return None; },
    };
    if map.len() != 1 {
        return None;
    }
    let ghost members = object_members(*map);
    proof {
        assert(members =~= Seq::empty().push(members[0]));
        lemma_member_index_push(Seq::empty(), members[0], "Order"@);
        lemma_member_index_push(Seq::empty(), members[0], "Confirm"@);
    }
    if let Some(inner) = member_value(map, "Order") {
        match order_from_value(inner) {
            Some(order) => Some(N3xMessage::Order(order)),
            None => None,
        }
    } else if let Some(inner) = member_value(map, "Confirm") {
        match confirm_from_value(inner) {
            Some(confirm) => Some(N3xMessage::Confirm(confirm)),
            None => None,
        }
    } else {
        None
    }
}

} // verus!
