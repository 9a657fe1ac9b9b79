//! The bounded acquisition loop.
//!
//! The provider delivers notifications only when its pump function is
//! invoked, so the loop pumps, checks the ticket slot, and either takes the
//! ticket, spends one attempt and suspends, or gives up once the fixed
//! budget is exhausted. The pump call and the suspension are the binary's
//! I/O; the decision after each pump, and the bound on the whole loop, live
//! here.

use vstd::prelude::*;
use crate::slot::TicketSlot;

verus! {

/// How many pump/check cycles the loop may spend waiting for a ticket.
pub const MAX_ATTEMPTS: u64 = 100;

/// How long the loop suspends after each unsuccessful check, in milliseconds.
pub const POLL_DELAY_MS: u64 = 100;

/// Counts the pump/check cycles that have elapsed without a ticket. Created
/// at loop entry, incremented once per miss, never decremented.
pub struct AttemptBudget {
    attempts: u64,
}

impl AttemptBudget {
    /// The number of attempts spent so far.
    pub closed spec fn spent(&self) -> int {
        self.attempts as int
    }

    /// The budget never counts past the maximum.
    pub open spec fn wf(&self) -> bool {
        0 <= self.spent() <= MAX_ATTEMPTS
    }

    /// A fresh budget with no attempt spent.
    pub fn new() -> (r: AttemptBudget)
        ensures
            r.spent() == 0,
            r.wf(),
    {
        AttemptBudget { attempts: 0 }
    }

    /// The number of attempts spent so far.
    pub fn spent_count(&self) -> (r: u64)
        ensures
            r == self.spent(),
    {
        self.attempts
    }
}

/// What the loop does after one pump of the provider.
pub enum PollStep {
    /// A ticket is in the slot: leave the loop at once and dispatch it.
    TicketReady(Vec<u8>),
    /// No ticket yet and budget remains: suspend for `POLL_DELAY_MS`, then
    /// pump again.
    Wait,
    /// The last attempt was spent without a ticket: report the timeout,
    /// skip dispatch, and fall through to the session tail.
    TimedOut,
}

/// One cycle of the acquisition loop, entered right after a pump: consult
/// the slot, and either take the ticket, burn one attempt and wait, or give
/// up. The slot is checked after every pump, never before the first.
pub fn poll_step(slot: &TicketSlot, budget: &mut AttemptBudget) -> (r: PollStep)
    requires
        old(budget).spent() < MAX_ATTEMPTS,
    ensures
        final(budget).wf(),
        slot@ matches Some(t) ==> (r matches PollStep::TicketReady(v) && v@ == t)
            && *final(budget) == *old(budget),
        slot@ is None ==> final(budget).spent() == old(budget).spent() + 1,
        slot@ is None && old(budget).spent() + 1 < MAX_ATTEMPTS ==> r is Wait,
        slot@ is None && old(budget).spent() + 1 == MAX_ATTEMPTS ==> r is TimedOut,
{
    match slot.ticket() {
        Some(v) => PollStep::TicketReady(v.clone()),
        None => {
            budget.attempts = budget.attempts + 1;
            if budget.attempts == MAX_ATTEMPTS {
                PollStep::TimedOut
            } else {
                PollStep::Wait
            }
        },
    }
}

/// How many pump/check cycles the loop performs when the slot is observed
/// populated exactly as `present` says, cycle by cycle, with `budget`
/// attempts left: it stops at the first cycle that finds a ticket, or when
/// the budget is spent.
pub open spec fn cycles_spec(present: Seq<bool>, budget: int) -> int
    decreases present.len(),
{
    if present.len() == 0 || budget <= 0 {
        0
    } else if present[0] {
        1
    } else {
        1 + cycles_spec(present.drop_first(), budget - 1)
    }
}

proof fn lemma_cycles_le_budget(present: Seq<bool>, budget: int)
    requires
        0 <= budget,
    ensures
        cycles_spec(present, budget) <= budget,
    decreases present.len(),
{
    if present.len() == 0 || budget <= 0 {
    } else if present[0] {
    } else {
        lemma_cycles_le_budget(present.drop_first(), budget - 1);
    }
}

/// Law: however the provider behaves — whether a ticket ever arrives or
/// not — the acquisition loop performs at most `MAX_ATTEMPTS` pump/check
/// cycles before it exits with a ticket or times out.
pub proof fn lemma_acquisition_bounded(present: Seq<bool>)
    ensures
        cycles_spec(present, MAX_ATTEMPTS as int) <= MAX_ATTEMPTS,
{
    lemma_cycles_le_budget(present, MAX_ATTEMPTS as int);
}

/// Law: when no cycle ever finds a ticket, the loop spends its whole budget
/// and no fewer: with at least `budget` all-miss observations, exactly
/// `budget` cycles run, and the outcome is the timeout.
pub proof fn lemma_all_misses_times_out(present: Seq<bool>, budget: int)
    requires
        0 <= budget <= present.len(),
        forall|i: int| 0 <= i < present.len() ==> !present[i],
    ensures
        cycles_spec(present, budget) == budget,
    decreases present.len(),
{
    if present.len() == 0 || budget <= 0 {
    } else {
        assert(!present[0]);
        lemma_all_misses_times_out(present.drop_first(), budget - 1);
    }
}

} // verus!
