//! The dispatcher: what becomes of each notification that the network hands
//! to a participant.
//!
//! A notification is judged once. A record that is no direct message, and a
//! raw message of the transport, are passed over. A direct message is
//! opened with the participant's secret key; what cannot be opened is passed
//! over, and so is what does not begin with the envelope's header. What
//! begins with it is an order or a confirmation, which go to their
//! handlers, or is malformed, which is passed over too. Only the
//! notification of shutdown ends the work.
use crate::cipher::{cipher_shaped, has_cipher_shape, open_cipher, opened_text, opened_view};
use crate::envelope::{decode, decoded, encoded, lemma_codec_round_trip, EnvelopeMalformed};
use crate::json::{json_parsed, json_rendered};
use crate::message::{
    message_tree, ConfirmContent, ConfirmView, MessageView, N3xMessage, OrderContent, OrderView,
};
use crate::record::{Record, RecordView, DIRECT_MESSAGE_KIND};
use vstd::prelude::*;

verus! {

/// What the network hands to a participant.
#[derive(Clone, Debug, PartialEq, Eq)]
pub enum Notification {
    /// A record has arrived.
    Event(Record),
    /// A raw message of the transport has arrived.
    Message,
    /// The transport shuts down.
    Shutdown,
}

/// Why a notification was passed over.
#[derive(Clone, Copy, Debug, PartialEq, Eq, Structural)]
pub enum Ignored {
    /// The record is no direct message.
    OtherKind,
    /// A raw message of the transport.
    Chatter,
    /// The direct message could not be opened: it is for somebody else, or
    /// damaged.
    Undecipherable,
    /// The direct message does not begin with the header: it is not of this
    /// protocol.
    Foreign,
    /// The direct message begins with the header and holds no message.
    Malformed(EnvelopeMalformed),
}

/// What is to be done about a notification.
#[derive(Clone, Debug, PartialEq, Eq)]
pub enum Dispatch {
    /// Hand the order to the order handler.
    Order(OrderContent),
    /// Hand the confirmation to the confirmation handler.
    Confirmation(ConfirmContent),
    /// Do nothing.
    Ignore(Ignored),
    /// Stop listening.
    Terminate,
}

/// A notification, with its texts as sequences of characters.
pub enum NotificationView {
    Event(RecordView),
    Message,
    Shutdown,
}

/// A dispatch, with its texts as sequences of characters.
pub enum DispatchView {
    Order(OrderView),
    Confirmation(ConfirmView),
    Ignore(Ignored),
    Terminate,
}

impl View for Notification {
    type V = NotificationView;

    open spec fn view(&self) -> NotificationView {
        match self {
            Notification::Event(record) => NotificationView::Event(record@),
            Notification::Message => NotificationView::Message,
            Notification::Shutdown => NotificationView::Shutdown,
        }
    }
}

impl View for Dispatch {
    type V = DispatchView;

    open spec fn view(&self) -> DispatchView {
        match self {
            Dispatch::Order(order) => DispatchView::Order(order@),
            Dispatch::Confirmation(confirm) => DispatchView::Confirmation(confirm@),
            Dispatch::Ignore(ignored) => DispatchView::Ignore(*ignored),
            Dispatch::Terminate => DispatchView::Terminate,
        }
    }
}

/// The views of a list of notifications.
pub open spec fn notification_views(notifications: Seq<Notification>) -> Seq<NotificationView> {
    Seq::new(notifications.len(), |i: int| notifications[i]@)
}

/// The views of a list of dispatches.
pub open spec fn dispatch_views(dispatches: Seq<Dispatch>) -> Seq<DispatchView> {
    Seq::new(dispatches.len(), |i: int| dispatches[i]@)
}

/// What becomes of a direct message, given what opening it gave.
pub open spec fn routed(opened: Option<Seq<char>>) -> DispatchView {
    match opened {
        None => DispatchView::Ignore(Ignored::Undecipherable),
        Some(text) => match decoded(text) {
            Ok(None) => DispatchView::Ignore(Ignored::Foreign),
            Ok(Some(MessageView::Order(order))) => DispatchView::Order(order),
            Ok(Some(MessageView::Confirm(confirm))) => DispatchView::Confirmation(confirm),
            Err(malformed) => DispatchView::Ignore(Ignored::Malformed(malformed)),
        },
    }
}

/// What opening a direct message gives: nothing where its content does not
/// end as an encrypted content does, else what decrypting it gives.
pub open spec fn opened_record(secret: Seq<char>, record: RecordView) -> Option<Seq<char>> {
    if cipher_shaped(record.content) {
        opened_text(secret, record.author, record.content)
    } else {
        None
    }
}

/// What becomes of a record.
pub open spec fn event_dispatched(secret: Seq<char>, record: RecordView) -> DispatchView {
    if record.kind == DIRECT_MESSAGE_KIND {
        routed(opened_record(secret, record))
    } else {
        DispatchView::Ignore(Ignored::OtherKind)
    }
}

/// What becomes of a notification.
pub open spec fn dispatched(secret: Seq<char>, notification: NotificationView) -> DispatchView {
    match notification {
        NotificationView::Event(record) => event_dispatched(secret, record),
        NotificationView::Message => DispatchView::Ignore(Ignored::Chatter),
        NotificationView::Shutdown => DispatchView::Terminate,
    }
}

/// What becomes of a run of notifications: each is dispatched in its turn,
/// up to and with the first shutdown; what follows a shutdown is not looked
/// at.
pub open spec fn handled(secret: Seq<char>, notifications: Seq<NotificationView>) -> Seq<
    DispatchView,
>
    decreases notifications.len(),
{
    if notifications.len() == 0 {
        Seq::empty()
    } else if notifications[0] is Shutdown {
        seq![DispatchView::Terminate]
    } else {
        seq![dispatched(secret, notifications[0])] + handled(secret, notifications.skip(1))
    }
}

/// What is passed over is passed over in silence, but for two cases that
/// are worth a line in the log: a direct message that could not be opened,
/// and one that is malformed.
pub open spec fn logged(ignored: Ignored) -> bool {
    ignored is Undecipherable || ignored is Malformed
}

/// Tells whether a notification that was passed over is worth a line in the
/// log.
pub fn is_logged(ignored: Ignored) -> (noted: bool)
    ensures
        noted == logged(ignored),
{
    match ignored {
        Ignored::Undecipherable => true,
        Ignored::Malformed(_) => true,
        _ => false,
    }
}

/// Decides what becomes of a direct message, given what opening it gave:
/// the text, or nothing where it could not be opened.
pub fn route_plaintext(opened: Option<String>) -> (dispatch: Dispatch)
    ensures
        dispatch@ == routed(opened_view(opened)),
{
    match opened {
        None => Dispatch::Ignore(Ignored::Undecipherable),
        Some(text) => match decode(text.as_str()) {
            Ok(None) => Dispatch::Ignore(Ignored::Foreign),
            Ok(Some(N3xMessage::Order(order))) => Dispatch::Order(order),
            Ok(Some(N3xMessage::Confirm(confirm))) => Dispatch::Confirmation(confirm),
            Err(malformed) => Dispatch::Ignore(Ignored::Malformed(malformed)),
        },
    }
}

/// Opens a direct message with the participant's secret key, given in
/// hexadecimal, and decides what becomes of it.
pub fn process_direct_message(secret: &str, record: &Record) -> (dispatch: Dispatch)
    ensures
        dispatch@ == routed(opened_record(secret@, record@)),
{
    let content = record.content.as_str();
    if has_cipher_shape(content) {
        route_plaintext(open_cipher(secret, record.author.as_str(), content))
    } else {
        route_plaintext(None)
    }
}

/// Decides what becomes of a record: a direct message is opened, any other
/// record is passed over.
pub fn process_event_message(secret: &str, record: &Record) -> (dispatch: Dispatch)
    ensures
        dispatch@ == event_dispatched(secret@, record@),
{
    if record.kind == DIRECT_MESSAGE_KIND {
        process_direct_message(secret, record)
    } else {
        Dispatch::Ignore(Ignored::OtherKind)
    }
}

/// Decides what becomes of a notification.
pub fn handle_notification(secret: &str, notification: &Notification) -> (dispatch: Dispatch)
    ensures
        dispatch@ == dispatched(secret@, notification@),
{
    match notification {
        Notification::Event(record) => process_event_message(secret, record),
        Notification::Message => Dispatch::Ignore(Ignored::Chatter),
        Notification::Shutdown => Dispatch::Terminate,
    }
}

/// The dispatcher of one participant: at work until the shutdown.
#[derive(Clone, Copy, Debug, PartialEq, Eq, Structural)]
pub struct Dispatcher {
    pub stopped: bool,
}

impl Dispatcher {
    /// A dispatcher at work.
    pub fn new() -> (dispatcher: Dispatcher)
        ensures
            !dispatcher.stopped,
    {
        Dispatcher { stopped: false }
    }

    /// Takes one notification. A dispatcher at work decides what becomes of
    /// it, and stops if and only if it is the shutdown. A dispatcher that
    /// has stopped takes nothing more.
    pub fn step(&mut self, secret: &str, notification: &Notification) -> (dispatch: Option<
        Dispatch,
    >)
        ensures
            old(self).stopped ==> dispatch is None && final(self).stopped,
            !old(self).stopped ==> {
                &&& dispatch matches Some(d) && d@ == dispatched(secret@, notification@)
                &&& final(self).stopped == (notification@ is Shutdown)
            },
    {
        if self.stopped {
            return None;
        }
        let dispatch = handle_notification(secret, notification);
        match notification {
            Notification::Shutdown => {
                self.stopped = true;
            },
            _ => {},
        }
        Some(dispatch)
    }
}

/// Takes a run of notifications, each in its turn, and gives what becomes
/// of each, up to and with the first shutdown.
pub fn drain(secret: &str, notifications: &Vec<Notification>) -> (dispatches: Vec<Dispatch>)
    ensures
        dispatch_views(dispatches@) == handled(secret@, notification_views(notifications@)),
{
    let ghost all = notification_views(notifications@);
    let mut dispatcher = Dispatcher::new();
    let mut dispatches: Vec<Dispatch> = Vec::new();
    let mut i: usize = 0;
    assert(all.skip(0) =~= all);
    while i < notifications.len() && !dispatcher.stopped
        invariant
            i <= notifications.len(),
            all == notification_views(notifications@),
            !dispatcher.stopped ==> handled(secret@, all) == dispatch_views(dispatches@) + handled(
                secret@,
                all.skip(i as int),
            ),
            dispatcher.stopped ==> handled(secret@, all) == dispatch_views(dispatches@),
        decreases notifications.len() - i,
    {
        let ghost before = dispatch_views(dispatches@);
        let ghost rest = all.skip(i as int);
        assert(rest.skip(1) =~= all.skip(i + 1));
        match dispatcher.step(secret, &notifications[i]) {
            Some(dispatch) => {
                dispatches.push(dispatch);
                assert(before + (seq![dispatch@] + handled(secret@, rest.skip(1))) =~= (before
                    + seq![dispatch@]) + handled(secret@, rest.skip(1)));
            },
            None => {},
        }
        i += 1;
    }
    dispatches
}

/// No notification is dropped and none is handled twice: the dispatches of
/// a run are those of its notifications, one for one and in their order, as
/// far as the run is handled; and it is handled to its end unless it holds
/// a shutdown, which is then the last that is handled.
pub proof fn lemma_each_handled_once(secret: Seq<char>, notifications: Seq<NotificationView>)
    ensures
        ({
            let dispatches = handled(secret, notifications);
            &&& dispatches.len() <= notifications.len()
            &&& forall|i: int|
                0 <= i < dispatches.len() ==> #[trigger] dispatches[i] == dispatched(
                    secret,
                    notifications[i],
                )
            &&& forall|i: int|
                0 <= i < dispatches.len() - 1 ==> !(#[trigger] notifications[i] is Shutdown)
            &&& dispatches.len() < notifications.len() ==> notifications[dispatches.len()
                - 1] is Shutdown
        }),
    decreases notifications.len(),
{
    if notifications.len() > 0 && !(notifications[0] is Shutdown) {
        let rest = notifications.skip(1);
        lemma_each_handled_once(secret, rest);
        let all = handled(secret, notifications);
        assert forall|i: int| 0 <= i < all.len() - 1 implies !(
        #[trigger] notifications[i] is Shutdown) by {
            if i > 0 {
                assert(rest[i - 1] == notifications[i]);
            }
        }
    }
}

/// A notification that is not the shutdown never ends the work: whatever
/// becomes of it, the notifications behind it are handled as if it had not
/// been there.
pub proof fn lemma_work_goes_on(
    secret: Seq<char>,
    notification: NotificationView,
    rest: Seq<NotificationView>,
)
    requires
        !(notification is Shutdown),
    ensures
        handled(secret, seq![notification] + rest) == seq![dispatched(secret, notification)]
            + handled(secret, rest),
        dispatched(secret, notification) != DispatchView::Terminate,
{
    let all = seq![notification] + rest;
    assert(all.skip(1) =~= rest);
    lemma_never_terminates_early(secret, notification);
}

/// Nothing but the shutdown makes the dispatcher stop.
pub proof fn lemma_never_terminates_early(secret: Seq<char>, notification: NotificationView)
    ensures
        dispatched(secret, notification) == DispatchView::Terminate <==> notification is Shutdown,
{
}

/// A direct message whose text begins with the header and holds no message
/// is passed over as malformed, and the notification behind it is handled.
pub proof fn lemma_malformed_is_passed_over(
    secret: Seq<char>,
    record: RecordView,
    text: Seq<char>,
    malformed: EnvelopeMalformed,
    next: NotificationView,
)
    requires
        record.kind == DIRECT_MESSAGE_KIND,
        opened_record(secret, record) == Some(text),
        decoded(text) == Err::<Option<MessageView>, EnvelopeMalformed>(malformed),
    ensures
        handled(secret, seq![NotificationView::Event(record), next]) == seq![
            DispatchView::Ignore(Ignored::Malformed(malformed)),
            dispatched(secret, next),
        ],
{
    let first = NotificationView::Event(record);
    let all = seq![first, next];
    reveal_with_fuel(handled, 3);
    assert(handled(secret, all) =~= seq![
        DispatchView::Ignore(Ignored::Malformed(malformed)),
        dispatched(secret, next),
    ]);
}

/// An order that was sent reaches the order handler as it was sent: where
/// the direct message opens to the envelope of the order, and the JSON text
/// written for the order is read back as what was written, the dispatch is
/// the order, and it is the only one.
pub proof fn lemma_order_reaches_handler(secret: Seq<char>, record: RecordView, order: OrderView)
    requires
        record.kind == DIRECT_MESSAGE_KIND,
        opened_record(secret, record) == Some(encoded(MessageView::Order(order))),
    ensures
        json_parsed(json_rendered(message_tree(MessageView::Order(order)))) == Some(
            message_tree(MessageView::Order(order)),
        ) ==> handled(secret, seq![NotificationView::Event(record)]) == seq![
            DispatchView::Order(order),
        ],
{
    lemma_codec_round_trip(MessageView::Order(order));
    reveal_with_fuel(handled, 2);
}

} // verus!
