//! The single-slot hand-off between the provider's notification handler and
//! the polling acquisition loop.
//!
//! The slot starts empty and accepts at most one write for the life of the
//! process: the first granted ticket is authoritative, and a later grant or
//! a reported failure leaves it untouched. The binary wraps the slot in a
//! mutex and shares it between the registered callback and the loop; the
//! transition rules themselves live here.

use vstd::prelude::*;

verus! {

/// What a store does to a slot's contents: it fills an empty slot and
/// leaves a populated one unchanged.
pub open spec fn slot_after_store(s: Option<Seq<u8>>, t: Seq<u8>) -> Option<Seq<u8>> {
    match s {
        None => Some(t),
        Some(_) => s,
    }
}

/// A cell for the ticket bytes: created empty, populated at most once,
/// read non-destructively.
pub struct TicketSlot {
    ticket: Option<Vec<u8>>,
}

impl View for TicketSlot {
    type V = Option<Seq<u8>>;

    closed spec fn view(&self) -> Option<Seq<u8>> {
        match self.ticket {
            Some(t) => Some(t@),
            None => None,
        }
    }
}

impl TicketSlot {
    /// An empty slot, as each process run starts with.
    pub fn new() -> (r: TicketSlot)
        ensures
            r@ is None,
    {
        TicketSlot { ticket: None }
    }

    /// Store a ticket if the slot is still empty; a populated slot is never
    /// overwritten. Returns whether this call populated the slot.
    pub fn store(&mut self, t: Vec<u8>) -> (accepted: bool)
        ensures
            final(self)@ == slot_after_store(old(self)@, t@),
            accepted == (old(self)@ is None),
    {
        if self.ticket.is_none() {
            self.ticket = Some(t);
            true
        } else {
            false
        }
    }

    /// Whether a ticket has arrived.
    pub fn is_populated(&self) -> (r: bool)
        ensures
            r == (self@ is Some),
    {
        self.ticket.is_some()
    }

    /// The stored ticket bytes, if any, without consuming them.
    pub fn ticket(&self) -> (r: Option<&Vec<u8>>)
        ensures
            match r {
                Some(v) => self@ == Some(v@),
                None => self@ is None,
            },
    {
        self.ticket.as_ref()
    }
}

/// A notification from the provider, as the registered handler sees it:
/// either a grant carrying the raw ticket bytes, or a reported failure.
pub enum TicketResponse {
    Granted(Vec<u8>),
    Denied,
}

/// What one notification amounted to, for the caller to report.
#[derive(PartialEq, Eq, Structural, Debug)]
pub enum BridgeEvent {
    /// A granted ticket filled the empty slot.
    Stored,
    /// A further grant arrived after the slot was already populated; it is
    /// a guarded-against anomaly and changes nothing.
    IgnoredDuplicate,
    /// The provider reported a failure; the slot is untouched.
    Failed,
}

/// The notification handler's whole decision: a granted ticket fills the
/// slot exactly once, a failure only gets reported. This function never
/// performs I/O itself.
pub fn on_ticket_response(slot: &mut TicketSlot, resp: TicketResponse) -> (r: BridgeEvent)
    ensures
        resp matches TicketResponse::Granted(t) ==> final(slot)@ == slot_after_store(
            old(slot)@,
            t@,
        ),
        resp matches TicketResponse::Granted(t) && old(slot)@ is None ==> r is Stored,
        resp matches TicketResponse::Granted(t) && old(slot)@ is Some ==> r is IgnoredDuplicate,
        resp is Denied ==> final(slot)@ == old(slot)@ && r is Failed,
{
    match resp {
        TicketResponse::Granted(t) => {
            if slot.store(t) {
                BridgeEvent::Stored
            } else {
                BridgeEvent::IgnoredDuplicate
            }
        },
        TicketResponse::Denied => BridgeEvent::Failed,
    }
}

/// Law: the slot transitions from empty to populated at most once. Whatever
/// two tickets are stored in turn, the slot ends populated, the first store
/// into an empty slot is the one observed, and a populated slot survives
/// both unchanged.
pub proof fn lemma_store_at_most_once(s: Option<Seq<u8>>, t1: Seq<u8>, t2: Seq<u8>)
    ensures
        slot_after_store(slot_after_store(s, t1), t2) is Some,
        s is None ==> slot_after_store(slot_after_store(s, t1), t2) == Some(t1),
        s is Some ==> slot_after_store(slot_after_store(s, t1), t2) == s,
{
}

} // verus!
