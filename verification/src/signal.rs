//! The switch signal: one flag that the interrupt handler sets and the
//! foreground loop reads and clears in a single operation.
//!
//! The flag remembers at most one request. Interrupts that arrive while it is
//! set add nothing to it, and a poll that finds it set leaves it clear.

use vstd::prelude::*;

verus! {

/// The flag after an interrupt was serviced: set, whatever it was before.
pub open spec fn raised(pending: bool) -> bool {
    true
}

/// The flag after `count` interrupts were serviced with no poll between them.
pub open spec fn raised_times(pending: bool, count: nat) -> bool
    decreases count,
{
    if count == 0 {
        pending
    } else {
        raised(raised_times(pending, (count - 1) as nat))
    }
}

/// What a poll of the flag answers, and the flag that it leaves behind.
pub open spec fn poll(pending: bool) -> (bool, bool) {
    (pending, false)
}

/// The switch request that the interrupt handler leaves for the foreground
/// loop.
///
/// The flag is reached through [`SwitchSignal::raise`] and [`shoud_switch`]
/// alone. Its view is whether a request is pending.
#[derive(Debug)]
pub struct SwitchSignal {
    pending: bool,
}

impl View for SwitchSignal {
    type V = bool;

    closed spec fn view(&self) -> bool {
        self.pending
    }
}

impl SwitchSignal {
    /// The signal as it is at boot: no request pending.
    pub fn new() -> (signal: SwitchSignal)
        ensures
            !signal@,
    {
        SwitchSignal { pending: false }
    }

    /// Records a switch request. Called by the interrupt handler.
    pub fn raise(&mut self)
        ensures
            final(self)@ == raised(old(self)@),
    {
        self.pending = true;
    }
}

/// Poll-and-clear: answers whether a switch request is pending and clears it.
/// Called by the foreground loop once per tick.
pub fn shoud_switch(signal: &mut SwitchSignal) -> (switch: bool)
    ensures
        (switch, final(signal)@) == poll(old(signal)@),
{
    if signal.pending {
        signal.pending = false;
        return true;
    }
    false
}

/// A request is handed out once: of two polls with no interrupt between them
/// the second answers false, and where a request was pending the first answers
/// true.
pub proof fn law_poll_hands_out_once(pending: bool)
    ensures
        poll(pending).0 == pending,
        poll(poll(pending).1).0 == false,
        pending ==> poll(pending) == (true, false),
{
}

/// Interrupts coalesce: after one or more interrupts with no poll between
/// them, the next poll answers true and the one after it false, however many
/// interrupts there were and whatever the flag was before.
pub proof fn law_interrupts_coalesce(pending: bool, count: nat)
    requires
        count >= 1,
    ensures
        raised_times(pending, count) == true,
        poll(raised_times(pending, count)) == (true, false),
        poll(poll(raised_times(pending, count)).1).0 == false,
{
}

} // verus!
