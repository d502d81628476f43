//! The foreground loop as a state machine.
//!
//! A tick of a pattern is three actions in a fixed order: send the frame of
//! the current cursor, sleep the pattern's interval, poll the switch signal.
//! The machine names the next action; the firmware performs it and reports
//! back with the matching event. [`PatternRun`] is the loop of one pattern,
//! which ends when a poll finds a switch request. [`Engine`] runs the fixed
//! rotation of patterns, one run after the other, for ever.

use vstd::prelude::*;
use crate::cursor::{Cursor, Frame, FrameView, Pattern};

verus! {

/// Number of patterns in the rotation.
pub const ROTATION_LEN: usize = 3;

/// Where a run stands within its tick: the action that is due next.
#[derive(Clone, Copy, Debug, PartialEq, Eq, Structural)]
pub enum Phase {
    /// The frame of the current cursor is to be rendered and sent.
    Render,
    /// The frame is out; the pattern's interval is to be slept.
    Sleep,
    /// The sleep is over; the switch signal is to be polled.
    Poll,
}

/// What the firmware is to do next.
#[derive(Debug, PartialEq, Eq)]
pub enum Action {
    /// Send this frame to the strip.
    Send(Frame),
    /// Sleep this many milliseconds.
    Sleep(u32),
    /// Poll the switch signal and clear it.
    Poll,
}

/// What an [`Action`] holds, with the frame as sequences.
pub enum ActionView {
    Send(FrameView),
    Sleep(u32),
    Poll,
}

impl View for Action {
    type V = ActionView;

    open spec fn view(&self) -> ActionView {
        match *self {
            Action::Send(frame) => ActionView::Send(frame@),
            Action::Sleep(ms) => ActionView::Sleep(ms),
            Action::Poll => ActionView::Poll,
        }
    }
}

/// What the firmware reports once it has performed an action.
#[derive(Clone, Copy, Debug, PartialEq, Eq, Structural)]
pub enum Event {
    /// The frame was sent.
    Sent,
    /// The sleep is over.
    Slept,
    /// The switch signal was polled, with the answer.
    Polled(bool),
}

/// The error of an event that does not answer the action that was due. The
/// machine stays as it was.
#[derive(Clone, Copy, Debug, PartialEq, Eq, Structural)]
pub struct OutOfTurn {
    /// The phase in which the event arrived.
    pub phase: Phase,
}

/// The loop of one pattern: its cursor and its place within the tick.
#[derive(Clone, Copy, Debug, PartialEq, Eq, Structural)]
pub struct PatternRun {
    pub cursor: Cursor,
    pub phase: Phase,
}

impl PatternRun {
    /// The run of `pattern` as it is entered: at the pattern's first cursor,
    /// with the first frame due.
    pub open spec fn begun(pattern: Pattern) -> PatternRun {
        PatternRun { cursor: Cursor::initial(pattern), phase: Phase::Render }
    }

    /// The action that is due, on a strip of `len` LEDs.
    pub open spec fn next_action(self, len: nat) -> ActionView {
        match self.phase {
            Phase::Render => ActionView::Send(self.cursor.frame(len)),
            Phase::Sleep => ActionView::Sleep(self.cursor.pattern_of().interval()),
            Phase::Poll => ActionView::Poll,
        }
    }

    /// The run after `event`: the same run one phase on, with the cursor
    /// advanced once the sleep is over; `None` where a poll found a switch
    /// request, which ends the run; an error where the event does not answer
    /// the action that was due.
    pub open spec fn after(self, event: Event) -> Result<Option<PatternRun>, OutOfTurn> {
        match (self.phase, event) {
            (Phase::Render, Event::Sent) => Ok(
                Some(PatternRun { cursor: self.cursor, phase: Phase::Sleep }),
            ),
            (Phase::Sleep, Event::Slept) => Ok(
                Some(PatternRun { cursor: self.cursor.advanced(), phase: Phase::Poll }),
            ),
            (Phase::Poll, Event::Polled(switch)) => Ok(
                if switch {
                    None
                } else {
                    Some(PatternRun { cursor: self.cursor, phase: Phase::Render })
                },
            ),
            _ => Err(OutOfTurn { phase: self.phase }),
        }
    }

    /// Enters `pattern`.
    pub fn start(pattern: Pattern) -> (run: PatternRun)
        ensures
            run == PatternRun::begun(pattern),
            run.cursor.wf(),
    {
        PatternRun { cursor: Cursor::start(pattern), phase: Phase::Render }
    }

    /// Names the action that is due, on a strip of `len` LEDs.
    pub fn action(&self, len: usize) -> (action: Action)
        ensures
            action@ == self.next_action(len as nat),
    {
        match self.phase {
            Phase::Render => Action::Send(self.cursor.render(len)),
            Phase::Sleep => Action::Sleep(self.cursor.pattern().interval_ms()),
            Phase::Poll => Action::Poll,
        }
    }

    /// Takes the report of the action that was due and moves on.
    pub fn step(self, event: Event) -> (result: Result<Option<PatternRun>, OutOfTurn>)
        ensures
            result == self.after(event),
            self.cursor.wf() ==> (result matches Ok(Some(next)) ==> next.cursor.wf()),
    {
        match (self.phase, event) {
            (Phase::Render, Event::Sent) => Ok(
                Some(PatternRun { cursor: self.cursor, phase: Phase::Sleep }),
            ),
            (Phase::Sleep, Event::Slept) => Ok(
                Some(PatternRun { cursor: self.cursor.advance(), phase: Phase::Poll }),
            ),
            (Phase::Poll, Event::Polled(switch)) => {
                if switch {
                    Ok(None)
                } else {
                    Ok(Some(PatternRun { cursor: self.cursor, phase: Phase::Render }))
                }
            },
            _ => Err(OutOfTurn { phase: self.phase }),
        }
    }
}

/// The patterns that the strip cycles through, in their order.
pub open spec fn rotation() -> Seq<Pattern> {
    seq![Pattern::Rainbow, Pattern::WarmWhite, Pattern::Rotate]
}

/// The place in the rotation that follows `slot`.
pub open spec fn slot_after(slot: nat) -> nat {
    (slot + 1) % 3
}

/// The pattern at `slot` of the rotation, counted round.
pub fn rotation_at(slot: usize) -> (pattern: Pattern)
    ensures
        pattern == rotation()[(slot % 3) as int],
{
    match slot % ROTATION_LEN {
        0 => Pattern::Rainbow,
        1 => Pattern::WarmWhite,
        _ => Pattern::Rotate,
    }
}

/// The place in the rotation that follows `slot`.
pub fn next_slot(slot: usize) -> (next: usize)
    ensures
        next == slot_after(slot as nat),
{
    (slot % ROTATION_LEN + 1) % ROTATION_LEN
}

/// The foreground loop: the rotation of patterns on a strip of a given length.
#[derive(Clone, Copy, Debug, PartialEq, Eq, Structural)]
pub struct Engine {
    /// The place of the running pattern in the rotation.
    pub slot: usize,
    /// The loop of the running pattern.
    pub run: PatternRun,
    /// The number of LEDs on the strip.
    pub strip_len: usize,
}

impl Engine {
    /// The engine runs the pattern of its slot, at a cursor that the pattern
    /// reaches.
    pub open spec fn wf(self) -> bool {
        &&& self.slot < 3
        &&& self.run.cursor.pattern_of() == rotation()[self.slot as int]
        &&& self.run.cursor.wf()
    }

    /// The engine at boot: the first pattern of the rotation, entered.
    pub open spec fn booted(strip_len: usize) -> Engine {
        Engine { slot: 0, run: PatternRun::begun(rotation()[0]), strip_len }
    }

    /// The engine as it enters the pattern at `slot`.
    pub open spec fn entered(slot: nat, strip_len: usize) -> Engine {
        Engine {
            slot: slot as usize,
            run: PatternRun::begun(rotation()[(slot % 3) as int]),
            strip_len,
        }
    }

    /// The action that is due.
    pub open spec fn next_action(self) -> ActionView {
        self.run.next_action(self.strip_len as nat)
    }

    /// The engine after `event`: the running pattern one phase on, or, where
    /// a poll found a switch request, the next pattern of the rotation,
    /// entered; an error where the event does not answer the action that was
    /// due.
    pub open spec fn after(self, event: Event) -> Result<Engine, OutOfTurn> {
        match self.run.after(event) {
            Ok(Some(run)) => Ok(Engine { slot: self.slot, run, strip_len: self.strip_len }),
            Ok(None) => Ok(Engine::entered(slot_after(self.slot as nat), self.strip_len)),
            Err(error) => Err(error),
        }
    }

    /// The engine after the events of `events` in turn, or the error of the
    /// first of them that came out of turn.
    pub open spec fn replay(self, events: Seq<Event>) -> Result<Engine, OutOfTurn>
        decreases events.len(),
    {
        if events.len() == 0 {
            Ok(self)
        } else {
            match self.replay(events.drop_last()) {
                Ok(engine) => engine.after(events.last()),
                Err(error) => Err(error),
            }
        }
    }

    /// The engine at boot, for a strip of `strip_len` LEDs.
    pub fn new(strip_len: usize) -> (engine: Engine)
        ensures
            engine == Engine::booted(strip_len),
            engine.wf(),
    {
        Engine { slot: 0, run: PatternRun::start(rotation_at(0)), strip_len }
    }

    /// The pattern that is running.
    pub fn pattern(&self) -> (pattern: Pattern)
        ensures
            pattern == self.run.cursor.pattern_of(),
    {
        self.run.cursor.pattern()
    }

    /// Names the action that is due.
    pub fn action(&self) -> (action: Action)
        ensures
            action@ == self.next_action(),
    {
        self.run.action(self.strip_len)
    }

    /// Takes the report of the action that was due and moves on. An event out
    /// of turn is refused and changes nothing.
    pub fn step(&mut self, event: Event) -> (result: Result<(), OutOfTurn>)
        ensures
            match old(self).after(event) {
                Ok(next) => result is Ok && *final(self) == next,
                Err(error) => result == Err::<(), OutOfTurn>(error) && *final(self) == *old(self),
            },
            old(self).wf() ==> final(self).wf(),
    {
        match self.run.step(event) {
            Ok(Some(run)) => {
                self.run = run;
                Ok(())
            },
            Ok(None) => {
                let slot = next_slot(self.slot);
                self.slot = slot;
                self.run = PatternRun::start(rotation_at(slot));
                Ok(())
            },
            Err(error) => Err(error),
        }
    }
}

/// The phase that follows `phase` within a tick, and after the poll the
/// first phase of the next tick.
pub open spec fn phase_after(phase: Phase) -> Phase {
    match phase {
        Phase::Render => Phase::Sleep,
        Phase::Sleep => Phase::Poll,
        Phase::Poll => Phase::Render,
    }
}

/// The phase that is reached from the start of a tick by `steps` actions.
pub open spec fn phase_at(steps: nat) -> Phase {
    if steps % 3 == 0 {
        Phase::Render
    } else if steps % 3 == 1 {
        Phase::Sleep
    } else {
        Phase::Poll
    }
}

/// An event that the engine accepts moves it on by one phase and leaves the
/// strip's length alone.
proof fn lemma_after_moves_one_phase(engine: Engine, event: Event)
    requires
        engine.after(event) is Ok,
    ensures
        engine.after(event)->Ok_0.run.phase == phase_after(engine.run.phase),
        engine.after(event)->Ok_0.strip_len == engine.strip_len,
{
}

/// Where the engine accepts a sequence of events from the start of a tick, it
/// accepts every beginning of it, and after `count` of the events it stands
/// in the phase that `count` actions lead to.
proof fn lemma_replay_begins(engine: Engine, events: Seq<Event>, count: int)
    requires
        engine.run.phase == Phase::Render,
        engine.replay(events) is Ok,
        0 <= count <= events.len(),
    ensures
        engine.replay(events.take(count)) is Ok,
        engine.replay(events.take(count))->Ok_0.run.phase == phase_at(count as nat),
        engine.replay(events.take(count))->Ok_0.strip_len == engine.strip_len,
    decreases events.len(),
{
    if events.len() == 0 {
        assert(events.take(count) =~= events);
    } else if count == events.len() {
        let before = events.drop_last();
        lemma_replay_begins(engine, before, count - 1);
        assert(before.take(count - 1) =~= before);
        assert(events.take(count) =~= events);
        lemma_after_moves_one_phase(engine.replay(before)->Ok_0, events.last());
    } else {
        let before = events.drop_last();
        lemma_replay_begins(engine, before, count);
        assert(before.take(count) =~= events.take(count));
    }
}

/// Every tick sends its one frame before it sleeps, and sleeps before it
/// polls.
///
/// Take an engine at the start of a tick and any sequence of events that it
/// accepts. Then the action that is due after `count` of them is fixed by
/// `count` alone: the frame of the cursor of that moment where `count` is a
/// multiple of three, the sleep of the running pattern's interval one event
/// later, the poll one event after that. So the actions of each tick are one
/// send, one sleep and one poll, in this order.
pub proof fn law_tick_sends_then_sleeps_then_polls(engine: Engine, events: Seq<Event>)
    requires
        engine.run.phase == Phase::Render,
        engine.replay(events) is Ok,
    ensures
        forall|count: int|
            0 <= count <= events.len() ==> {
                let reached = #[trigger] engine.replay(events.take(count));
                &&& reached is Ok
                &&& reached->Ok_0.run.phase == phase_at(count as nat)
                &&& reached->Ok_0.next_action() == (if count % 3 == 0 {
                    ActionView::Send(reached->Ok_0.run.cursor.frame(engine.strip_len as nat))
                } else if count % 3 == 1 {
                    ActionView::Sleep(reached->Ok_0.run.cursor.pattern_of().interval())
                } else {
                    ActionView::Poll
                })
            },
{
    assert forall|count: int| 0 <= count <= events.len() implies {
        let reached = #[trigger] engine.replay(events.take(count));
        &&& reached is Ok
        &&& reached->Ok_0.run.phase == phase_at(count as nat)
        &&& reached->Ok_0.next_action() == (if count % 3 == 0 {
            ActionView::Send(reached->Ok_0.run.cursor.frame(engine.strip_len as nat))
        } else if count % 3 == 1 {
            ActionView::Sleep(reached->Ok_0.run.cursor.pattern_of().interval())
        } else {
            ActionView::Poll
        })
    } by {
        lemma_replay_begins(engine, events, count);
    }
}

/// The engine takes an event if and only if it answers the action that is
/// due: the report of a sent frame where a frame was due, of a sleep where a
/// sleep was due, of a poll where a poll was due.
pub proof fn law_only_the_due_event_is_taken(engine: Engine, event: Event)
    ensures
        engine.after(event) is Ok <==> (match engine.run.phase {
            Phase::Render => event == Event::Sent,
            Phase::Sleep => event == Event::Slept,
            Phase::Poll => event is Polled,
        }),
{
}

/// The rotation never skips and never ends: a switch request enters the
/// pattern that follows the running one in the rotation, at that pattern's
/// first cursor and with its first frame due, and three switches in a row
/// lead back to the pattern in which the first of them was found.
pub proof fn law_rotation_goes_round(engine: Engine)
    requires
        engine.wf(),
        engine.run.phase == Phase::Poll,
    ensures
        engine.after(Event::Polled(true)) == Ok::<Engine, OutOfTurn>(
            Engine::entered(slot_after(engine.slot as nat), engine.strip_len),
        ),
        Engine::entered(slot_after(engine.slot as nat), engine.strip_len).wf(),
        slot_after(slot_after(slot_after(engine.slot as nat))) == engine.slot,
        engine.after(Event::Polled(false)) == Ok::<Engine, OutOfTurn>(
            Engine {
                slot: engine.slot,
                run: PatternRun { cursor: engine.run.cursor, phase: Phase::Render },
                strip_len: engine.strip_len,
            },
        ),
{
}

} // verus!
