//! Patterns and their cursors: where a pattern starts, what it shows at a
//! cursor, how long its tick lasts and how the cursor moves from tick to tick.

use vstd::prelude::*;
use crate::color::{Color, Hsv};
use crate::patterns::{
    next_counter, next_hue, next_offset, rainbow, rainbow_frame, rainbow_next, ring_palette,
    rocket_start, rocket_start_frame, rocket_start_next, rotate, rotate_frame, rotate_led,
    rotate_next, solid_frame, warm_white, warm_white_color, white, white_color,
};

verus! {

/// Milliseconds between two frames of the rainbow.
pub const RAINBOW_MS: u32 = 25;

/// Milliseconds between two frames of the white pattern.
pub const WHITE_MS: u32 = 5000;

/// Milliseconds between two frames of the warm white pattern.
pub const WARM_WHITE_MS: u32 = 1000;

/// Milliseconds between two frames of the rotating rings.
pub const ROTATE_MS: u32 = 750;

/// Milliseconds between two frames of the countdown bands.
pub const ROCKET_START_MS: u32 = 500;

/// The five patterns that the strip can show.
#[derive(Clone, Copy, Debug, PartialEq, Eq, Structural)]
pub enum Pattern {
    /// A hue gradient along the strip that drifts from tick to tick.
    Rainbow,
    /// Every LED at full white.
    White,
    /// Every LED in one warm tone.
    WarmWhite,
    /// Rings of eight LEDs whose colours move round by one place per tick.
    Rotate,
    /// Bands of ten LEDs through which three lit colours count down.
    RocketStart,
}

impl Pattern {
    /// How long one tick of the pattern sleeps, in milliseconds.
    pub open spec fn interval(self) -> u32 {
        match self {
            Pattern::Rainbow => RAINBOW_MS,
            Pattern::White => WHITE_MS,
            Pattern::WarmWhite => WARM_WHITE_MS,
            Pattern::Rotate => ROTATE_MS,
            Pattern::RocketStart => ROCKET_START_MS,
        }
    }

    /// How long one tick of the pattern sleeps, in milliseconds.
    pub fn interval_ms(self) -> (ms: u32)
        ensures
            ms == self.interval(),
    {
        match self {
            Pattern::Rainbow => RAINBOW_MS,
            Pattern::White => WHITE_MS,
            Pattern::WarmWhite => WARM_WHITE_MS,
            Pattern::Rotate => ROTATE_MS,
            Pattern::RocketStart => ROCKET_START_MS,
        }
    }
}

/// One frame: the colour of every LED of the strip at one instant, first LED
/// first.
///
/// The rainbow's colours are computed in HSV and leave the library as such;
/// whoever sends the frame converts them.
#[derive(Debug, PartialEq, Eq)]
pub enum Frame {
    Rgb(Vec<Color>),
    Hsv(Vec<Hsv>),
}

/// What a [`Frame`] holds, as sequences.
pub enum FrameView {
    Rgb(Seq<Color>),
    Hsv(Seq<Hsv>),
}

impl View for Frame {
    type V = FrameView;

    open spec fn view(&self) -> FrameView {
        match *self {
            Frame::Rgb(leds) => FrameView::Rgb(leds@),
            Frame::Hsv(leds) => FrameView::Hsv(leds@),
        }
    }
}

impl FrameView {
    /// The number of LEDs in the frame.
    pub open spec fn len(self) -> nat {
        match self {
            FrameView::Rgb(leds) => leds.len(),
            FrameView::Hsv(leds) => leds.len(),
        }
    }
}

impl Frame {
    /// The number of LEDs in the frame.
    pub fn len(&self) -> (len: usize)
        ensures
            len == self@.len(),
    {
        match self {
            Frame::Rgb(leds) => leds.len(),
            Frame::Hsv(leds) => leds.len(),
        }
    }
}

/// The state that a pattern carries from tick to tick. The variant says which
/// pattern is running.
#[derive(Clone, Copy, Debug, PartialEq, Eq, Structural)]
pub enum Cursor {
    /// The rainbow, with the hue of the first LED in degrees.
    Rainbow { hue: u16 },
    /// The white pattern, which has no state.
    White,
    /// The warm white pattern, which has no state.
    WarmWhite,
    /// The rotating rings, with the number of places that the palette has
    /// moved.
    Rotate { offset: usize },
    /// The countdown bands, with the counter that runs from eight down to
    /// zero.
    RocketStart { counter: usize },
}

impl Cursor {
    /// The cursor is one that its pattern reaches: the hue on the circle, the
    /// offset within a ring, the counter within the bands.
    pub open spec fn wf(self) -> bool {
        match self {
            Cursor::Rainbow { hue } => hue < 360,
            Cursor::White => true,
            Cursor::WarmWhite => true,
            Cursor::Rotate { offset } => offset < 8,
            Cursor::RocketStart { counter } => counter < 9,
        }
    }

    /// The pattern that the cursor belongs to.
    pub open spec fn pattern_of(self) -> Pattern {
        match self {
            Cursor::Rainbow { .. } => Pattern::Rainbow,
            Cursor::White => Pattern::White,
            Cursor::WarmWhite => Pattern::WarmWhite,
            Cursor::Rotate { .. } => Pattern::Rotate,
            Cursor::RocketStart { .. } => Pattern::RocketStart,
        }
    }

    /// The cursor with which `pattern` starts, every time it is entered.
    pub open spec fn initial(pattern: Pattern) -> Cursor {
        match pattern {
            Pattern::Rainbow => Cursor::Rainbow { hue: 0 },
            Pattern::White => Cursor::White,
            Pattern::WarmWhite => Cursor::WarmWhite,
            Pattern::Rotate => Cursor::Rotate { offset: 0 },
            Pattern::RocketStart => Cursor::RocketStart { counter: 8 },
        }
    }

    /// The frame that the pattern shows at this cursor on a strip of `len`
    /// LEDs.
    pub open spec fn frame(self, len: nat) -> FrameView {
        match self {
            Cursor::Rainbow { hue } => FrameView::Hsv(rainbow_frame(hue as nat, len)),
            Cursor::White => FrameView::Rgb(solid_frame(white_color(), len)),
            Cursor::WarmWhite => FrameView::Rgb(solid_frame(warm_white_color(), len)),
            Cursor::Rotate { offset } => FrameView::Rgb(rotate_frame(offset as nat, len)),
            Cursor::RocketStart { counter } => FrameView::Rgb(
                rocket_start_frame(counter as nat, len),
            ),
        }
    }

    /// The cursor one tick later.
    pub open spec fn advanced(self) -> Cursor {
        match self {
            Cursor::Rainbow { hue } => Cursor::Rainbow { hue: rainbow_next(hue as nat) as u16 },
            Cursor::White => Cursor::White,
            Cursor::WarmWhite => Cursor::WarmWhite,
            Cursor::Rotate { offset } => Cursor::Rotate {
                offset: rotate_next(offset as nat) as usize,
            },
            Cursor::RocketStart { counter } => Cursor::RocketStart {
                counter: rocket_start_next(counter as nat) as usize,
            },
        }
    }

    /// The cursor `ticks` ticks later.
    pub open spec fn after_ticks(self, ticks: nat) -> Cursor
        decreases ticks,
    {
        if ticks == 0 {
            self
        } else {
            self.after_ticks((ticks - 1) as nat).advanced()
        }
    }

    /// The cursor with which `pattern` starts.
    pub fn start(pattern: Pattern) -> (cursor: Cursor)
        ensures
            cursor == Cursor::initial(pattern),
            cursor.wf(),
    {
        match pattern {
            Pattern::Rainbow => Cursor::Rainbow { hue: 0 },
            Pattern::White => Cursor::White,
            Pattern::WarmWhite => Cursor::WarmWhite,
            Pattern::Rotate => Cursor::Rotate { offset: 0 },
            Pattern::RocketStart => Cursor::RocketStart { counter: 8 },
        }
    }

    /// The pattern that the cursor belongs to.
    pub fn pattern(&self) -> (pattern: Pattern)
        ensures
            pattern == self.pattern_of(),
    {
        match self {
            Cursor::Rainbow { .. } => Pattern::Rainbow,
            Cursor::White => Pattern::White,
            Cursor::WarmWhite => Pattern::WarmWhite,
            Cursor::Rotate { .. } => Pattern::Rotate,
            Cursor::RocketStart { .. } => Pattern::RocketStart,
        }
    }

    /// Renders the frame of this cursor for a strip of `len` LEDs.
    pub fn render(&self, len: usize) -> (frame: Frame)
        ensures
            frame@ == self.frame(len as nat),
    {
        match *self {
            Cursor::Rainbow { hue } => Frame::Hsv(rainbow(hue, len)),
            Cursor::White => Frame::Rgb(white(len)),
            Cursor::WarmWhite => Frame::Rgb(warm_white(len)),
            Cursor::Rotate { offset } => Frame::Rgb(rotate(offset, len)),
            Cursor::RocketStart { counter } => Frame::Rgb(rocket_start(counter, len)),
        }
    }

    /// Moves the cursor on by one tick. The pattern stays the same, and a
    /// cursor that the pattern reaches leads to one that it reaches.
    pub fn advance(&self) -> (next: Cursor)
        ensures
            next == self.advanced(),
            next.pattern_of() == self.pattern_of(),
            self.wf() ==> next.wf(),
    {
        match *self {
            Cursor::Rainbow { hue } => Cursor::Rainbow { hue: next_hue(hue) },
            Cursor::White => Cursor::White,
            Cursor::WarmWhite => Cursor::WarmWhite,
            Cursor::Rotate { offset } => Cursor::Rotate { offset: next_offset(offset) },
            Cursor::RocketStart { counter } => Cursor::RocketStart {
                counter: next_counter(counter),
            },
        }
    }
}

/// One tick moves the rings' cursor from `offset` to the next place in the
/// ring.
proof fn lemma_rings_step(offset: usize)
    requires
        offset < 8,
    ensures
        (Cursor::Rotate { offset }).advanced() == (Cursor::Rotate {
            offset: ((offset + 1) % 8) as usize,
        }),
{
}

/// At offset zero every LED shows the palette entry of its own place in the
/// ring, so the first LED of each ring shows the first entry. Eight ticks
/// later, one full turn of the ring, the offset and with it the whole frame
/// are what they were, from whichever offset the turn began.
pub proof fn law_rings_come_round(offset: usize, len: nat)
    requires
        offset < 8,
    ensures
        forall|index: nat| #[trigger] rotate_led(0, index) == ring_palette()[(index % 8) as int],
        forall|index: nat| index % 8 == 0 ==> #[trigger] rotate_led(0, index) == ring_palette()[0],
        (Cursor::Rotate { offset }).after_ticks(8) == (Cursor::Rotate { offset }),
        (Cursor::Rotate { offset }).after_ticks(8).frame(len) == (Cursor::Rotate { offset }).frame(
            len,
        ),
{
    lemma_rings_ticks(offset, 8);
}

/// After `ticks` ticks the rings' cursor has moved on by as many places.
proof fn lemma_rings_ticks(offset: usize, ticks: nat)
    requires
        offset < 8,
    ensures
        (Cursor::Rotate { offset }).after_ticks(ticks) == (Cursor::Rotate {
            offset: ((offset + ticks) % 8) as usize,
        }),
    decreases ticks,
{
    if ticks > 0 {
        lemma_rings_ticks(offset, (ticks - 1) as nat);
        lemma_rings_step(((offset + ticks - 1) % 8) as usize);
    }
}

} // verus!
