//! The decisions of the button's interrupt handler.
//!
//! The firmware's handler asks the input whether it raised the pending
//! interrupt and hands the answer to [`handler`], which records the switch
//! request and returns the hardware steps that are still owed. The firmware
//! takes them from the [`Service`] one by one and performs each before it asks
//! for the next.

use vstd::prelude::*;
use crate::signal::{raised, SwitchSignal};

verus! {

/// Milliseconds that the handler waits before it returns, so that a bouncing
/// contact counts as one press.
pub const SETTLE_MS: u32 = 100;

/// One thing that the firmware does on the hardware while it services an
/// interrupt.
#[derive(Clone, Copy, Debug, PartialEq, Eq, Structural)]
pub enum Step {
    /// Clear the input's pending interrupt, which acknowledges the edge and
    /// arms the input for the next one.
    Acknowledge,
    /// Wait this many milliseconds.
    Settle(u32),
}

/// The steps that servicing an interrupt takes once the switch signal is
/// dealt with, in their order: the acknowledgement where the button was the
/// source, then the settle delay, which is owed either way.
pub open spec fn steps_owed(is_source: bool) -> Seq<Step> {
    if is_source {
        seq![Step::Acknowledge, Step::Settle(SETTLE_MS)]
    } else {
        seq![Step::Settle(SETTLE_MS)]
    }
}

/// The hardware steps that remain of servicing one interrupt. Its view is
/// the sequence of those steps, the next one first.
#[derive(Debug)]
pub struct Service {
    acknowledge: bool,
    settle: bool,
}

impl View for Service {
    type V = Seq<Step>;

    closed spec fn view(&self) -> Seq<Step> {
        let first = if self.acknowledge {
            seq![Step::Acknowledge]
        } else {
            Seq::<Step>::empty()
        };
        let second = if self.settle {
            seq![Step::Settle(SETTLE_MS)]
        } else {
            Seq::<Step>::empty()
        };
        first + second
    }
}

impl Service {
    /// Takes the next step that is owed, or `None` once the interrupt is
    /// serviced.
    pub fn next(&mut self) -> (step: Option<Step>)
        ensures
            match step {
                Some(next) => old(self)@.len() > 0 && next == old(self)@[0] && final(self)@ == old(
                    self,
                )@.drop_first(),
                None => old(self)@.len() == 0 && final(self)@ == old(self)@,
            },
    {
        if self.acknowledge {
            self.acknowledge = false;
            assert(self@ =~= old(self)@.drop_first());
            Some(Step::Acknowledge)
        } else if self.settle {
            self.settle = false;
            assert(self@ =~= old(self)@.drop_first());
            Some(Step::Settle(SETTLE_MS))
        } else {
            None
        }
    }
}

/// Services one interrupt. `is_source` says whether the button raised it.
///
/// Where the button is the source, the switch request is recorded before
/// anything is acknowledged; where it is not, the signal is left as it was.
pub fn handler(signal: &mut SwitchSignal, is_source: bool) -> (service: Service)
    ensures
        final(signal)@ == (if is_source {
            raised(old(signal)@)
        } else {
            old(signal)@
        }),
        service@ == steps_owed(is_source),
{
    if is_source {
        signal.raise();
    }
    let service = Service { acknowledge: is_source, settle: true };
    assert(service@ =~= steps_owed(is_source));
    service
}

/// The line that the handler logs for an interrupt.
pub fn diagnostic(is_source: bool) -> (line: &'static str)
    ensures
        line@ == (if is_source {
            "Button was the source of the interrupt"@
        } else {
            "Button was not the source of the interrupt"@
        }),
{
    if is_source {
        "Button was the source of the interrupt"
    } else {
        "Button was not the source of the interrupt"
    }
}

} // verus!
