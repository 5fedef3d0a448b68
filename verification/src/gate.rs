//! A gate in front of the session that a participant's commands and its
//! dispatcher share.
//!
//! Whoever wants the session takes a ticket. Tickets are numbered in the
//! order in which they are taken, and one ticket is admitted at a time,
//! in that order: the next is admitted when the one before it is given
//! back. So no two operations hold the session together, and none waits for
//! more operations than stood in line before it.
use vstd::prelude::*;

verus! {

/// A session gate: how many tickets were taken and how many were given back.
#[derive(Debug)]
pub struct Gate {
    issued: u64,
    served: u64,
}

/// A gate in numbers without bound.
pub struct GateView {
    /// The number of tickets taken: the tickets are `0`, `1`, ... below it.
    pub issued: nat,
    /// The number of tickets given back.
    pub served: nat,
}

/// What can be done at a gate.
pub enum GateEvent {
    /// A ticket is taken.
    Request,
    /// The holder of this ticket tries to give it back.
    Release(nat),
}

/// No more tickets were given back than were taken.
pub open spec fn valid(gate: GateView) -> bool {
    gate.served <= gate.issued
}

/// The ticket that holds the session: the first that was taken and not
/// given back.
pub open spec fn admitted(gate: GateView, ticket: nat) -> bool {
    ticket == gate.served && ticket < gate.issued
}

/// A ticket that was taken and whose turn has not come.
pub open spec fn waiting(gate: GateView, ticket: nat) -> bool {
    gate.served < ticket < gate.issued
}

/// A gate after one more ticket was taken.
pub open spec fn after_request(gate: GateView) -> GateView {
    GateView { issued: gate.issued + 1, served: gate.served }
}

/// A gate after `count` more tickets were given back.
pub open spec fn after_releases(gate: GateView, count: nat) -> GateView {
    GateView { issued: gate.issued, served: gate.served + count }
}

/// A gate after an event. Giving back a ticket that does not hold the
/// session changes nothing.
pub open spec fn after_event(gate: GateView, event: GateEvent) -> GateView {
    match event {
        GateEvent::Request => after_request(gate),
        GateEvent::Release(ticket) => if admitted(gate, ticket) {
            after_releases(gate, 1)
        } else {
            gate
        },
    }
}

/// A gate after a run of events.
pub open spec fn after_events(gate: GateView, events: Seq<GateEvent>) -> GateView
    decreases events.len(),
{
    if events.len() == 0 {
        gate
    } else {
        after_event(after_events(gate, events.drop_last()), events.last())
    }
}

impl View for Gate {
    type V = GateView;

    closed spec fn view(&self) -> GateView {
        GateView { issued: self.issued as nat, served: self.served as nat }
    }
}

impl Gate {
    #[verifier::type_invariant]
    spec fn in_order(self) -> bool {
        self.served <= self.issued
    }

    /// A gate at which nobody stands.
    pub fn new() -> (gate: Gate)
        ensures
            gate@ == (GateView { issued: 0, served: 0 }),
    {
        Gate { issued: 0, served: 0 }
    }

    /// Takes a ticket. There are `u64::MAX` tickets; once all are taken the
    /// gate gives `None` and stays as it is.
    pub fn request(&mut self) -> (ticket: Option<u64>)
        ensures
            valid(old(self)@),
            old(self)@.issued < u64::MAX ==> {
                &&& ticket == Some(old(self)@.issued as u64)
                &&& final(self)@ == after_request(old(self)@)
            },
            old(self)@.issued >= u64::MAX ==> {
                &&& ticket is None
                &&& final(self)@ == old(self)@
            },
    {
        proof {
            use_type_invariant(&*self);
        }
        if self.issued == u64::MAX {
            return None;
        }
        let ticket = self.issued;
        self.issued = ticket + 1;
        Some(ticket)
    }

    /// Tells whether a ticket holds the session now.
    pub fn holds(&self, ticket: u64) -> (held: bool)
        ensures
            valid(self@),
            held == admitted(self@, ticket as nat),
    {
        proof {
            use_type_invariant(self);
        }
        ticket == self.served && ticket < self.issued
    }

    /// Gives a ticket back. Only the ticket that holds the session can be
    /// given back: for any other ticket the answer is `false` and nothing changes.
    pub fn release(&mut self, ticket: u64) -> (released: bool)
        ensures
            valid(old(self)@),
            released == admitted(old(self)@, ticket as nat),
            final(self)@ == after_event(old(self)@, GateEvent::Release(ticket as nat)),
    {
        proof {
            use_type_invariant(&*self);
        }
        if ticket == self.served && ticket < self.issued {
            self.served = ticket + 1;
            true
        } else {
            false
        }
    }

    /// The number of tickets that are admitted before this one, for a
    /// ticket that was taken and not given back.
    pub fn ahead_of(&self, ticket: u64) -> (count: Option<u64>)
        ensures
            valid(self@),
            count == if self@.served <= ticket < self@.issued {
                Some((ticket - self@.served) as u64)
            } else {
                None
            },
    {
        proof {
            use_type_invariant(self);
        }
        if self.served <= ticket && ticket < self.issued {
            Some(ticket - self.served)
        } else {
            None
        }
    }
}

/// Never do two tickets hold the session together.
pub proof fn lemma_one_holder(gate: GateView, first: nat, second: nat)
    requires
        admitted(gate, first),
        admitted(gate, second),
    ensures
        first == second,
{
}

/// Whatever is done at a gate, in whatever order, it stays valid, no ticket
/// is taken back from those taken, and none that was given back holds the
/// session again.
pub proof fn lemma_exclusion_throughout(gate: GateView, events: Seq<GateEvent>)
    requires
        valid(gate),
    ensures
        valid(after_events(gate, events)),
        after_events(gate, events).issued >= gate.issued,
        after_events(gate, events).served >= gate.served,
        forall|ticket: nat|
            ticket < gate.served ==> !admitted(after_events(gate, events), ticket),
    decreases events.len(),
{
    if events.len() > 0 {
        lemma_exclusion_throughout(gate, events.drop_last());
    }
}

/// The holder of the session keeps it until it gives its ticket back:
/// neither new tickets nor the attempts of others to give theirs back take
/// it away.
pub proof fn lemma_holder_keeps_session(gate: GateView, holder: nat, events: Seq<GateEvent>)
    requires
        admitted(gate, holder),
        forall|i: int| 0 <= i < events.len() ==> events[i] != GateEvent::Release(holder),
    ensures
        admitted(after_events(gate, events), holder),
    decreases events.len(),
{
    if events.len() > 0 {
        let before = events.drop_last();
        assert forall|i: int| 0 <= i < before.len() implies before[i] != GateEvent::Release(
            holder,
        ) by {
            assert(before[i] == events[i]);
        }
        lemma_holder_keeps_session(gate, holder, before);
        assert(events.last() == events[events.len() - 1]);
    }
}

/// A waiting ticket's turn comes: it holds the session once the tickets
/// before it were given back, as many as stand before it and no more, and
/// not earlier.
pub proof fn lemma_turn_comes(gate: GateView, ticket: nat)
    requires
        valid(gate),
        waiting(gate, ticket),
    ensures
        admitted(after_releases(gate, (ticket - gate.served) as nat), ticket),
        forall|count: nat|
            count < ticket - gate.served ==> !admitted(after_releases(gate, count), ticket),
{
}

} // verus!
