//! The frames of the five patterns, each a function of the pattern's cursor
//! and of the strip's length, and the step that moves each cursor on by one
//! tick.

use vstd::prelude::*;
use crate::color::{Color, Hsv, FULL_TURN};

verus! {

/// Number of LEDs on the strip that the firmware drives.
pub const NUM_LEDS: usize = 72;

/// Number of LEDs in one ring, and of entries in the ring palette.
pub const NUM_LEDS_ROUND: usize = 8;

/// Number of countdown bands, and of entries in the band palette.
pub const NUM_ROUNDS: usize = 9;

/// Number of neighbouring LEDs in one countdown band.
pub const BAND_WIDTH: usize = 10;

/// Degrees by which the rainbow's base hue moves per tick.
pub const HUE_STEP: u16 = 2;

/// Degrees between the hues of two neighbouring LEDs of the rainbow.
pub const LED_HUE_STEP: u16 = 5;

/// Saturation of every rainbow colour, in percent.
pub const RAINBOW_SATURATION: u8 = 100;

/// Value of every rainbow colour, in percent.
pub const RAINBOW_VALUE: u8 = 10;

/// The colours that the rings rotate through.
pub open spec fn ring_palette() -> Seq<Color> {
    seq![
        Color { r: 128, g: 0, b: 0 },
        Color { r: 0, g: 128, b: 0 },
        Color { r: 0, g: 0, b: 128 },
        Color { r: 128, g: 128, b: 0 },
        Color { r: 128, g: 0, b: 128 },
        Color { r: 0, g: 128, b: 128 },
        Color { r: 128, g: 64, b: 0 },
        Color { r: 64, g: 128, b: 64 },
    ]
}

/// The colours of the countdown bands: three lit entries, then six dark ones.
pub open spec fn band_palette() -> Seq<Color> {
    seq![
        Color { r: 128, g: 128, b: 0 },
        Color { r: 255, g: 128, b: 0 },
        Color { r: 255, g: 0, b: 0 },
        Color::off(),
        Color::off(),
        Color::off(),
        Color::off(),
        Color::off(),
        Color::off(),
    ]
}

/// The colour of LED `index` of the rotating rings at `offset`: the LED's
/// place in its ring, moved on by the offset, picks the palette entry.
pub open spec fn rotate_led(offset: nat, index: nat) -> Color {
    ring_palette()[((index % 8 + offset) % 8) as int]
}

/// The frame of the rotating rings at `offset` on a strip of `len` LEDs.
pub open spec fn rotate_frame(offset: nat, len: nat) -> Seq<Color> {
    Seq::new(len, |i: int| rotate_led(offset, i as nat))
}

/// The colour of LED `index` of the countdown bands at `counter`: the LED's
/// band, moved on by the counter, picks the palette entry; LEDs behind the
/// last band are off.
pub open spec fn rocket_start_led(counter: nat, index: nat) -> Color {
    if index / 10 < 9 {
        band_palette()[((index / 10 + counter) % 9) as int]
    } else {
        Color::off()
    }
}

/// The frame of the countdown bands at `counter` on a strip of `len` LEDs.
pub open spec fn rocket_start_frame(counter: nat, len: nat) -> Seq<Color> {
    Seq::new(len, |i: int| rocket_start_led(counter, i as nat))
}

/// The hue of LED `index` of the rainbow whose base hue is `base`, in degrees
/// on the circle.
pub open spec fn rainbow_hue(base: nat, index: nat) -> nat {
    (base + 5 * index) % 360
}

/// The colour of LED `index` of the rainbow whose base hue is `base`.
pub open spec fn rainbow_led(base: nat, index: nat) -> Hsv {
    Hsv { hue: rainbow_hue(base, index) as u16, saturation: 100, value: 10 }
}

/// The frame of the rainbow whose base hue is `base` on a strip of `len` LEDs.
pub open spec fn rainbow_frame(base: nat, len: nat) -> Seq<Hsv> {
    Seq::new(len, |i: int| rainbow_led(base, i as nat))
}

/// The one colour of the white pattern.
pub open spec fn white_color() -> Color {
    Color { r: 255, g: 255, b: 255 }
}

/// The one colour of the warm white pattern.
pub open spec fn warm_white_color() -> Color {
    Color { r: 255, g: 140, b: 80 }
}

/// A frame of `len` LEDs that all show `color`.
pub open spec fn solid_frame(color: Color, len: nat) -> Seq<Color> {
    Seq::new(len, |i: int| color)
}

/// The ring offset one tick after `offset`.
pub open spec fn rotate_next(offset: nat) -> nat {
    (offset + 1) % 8
}

/// The countdown counter one tick after `counter`.
pub open spec fn rocket_start_next(counter: nat) -> nat {
    if counter == 0 {
        8
    } else {
        (counter - 1) as nat
    }
}

/// The rainbow's base hue one tick after `base`.
pub open spec fn rainbow_next(base: nat) -> nat {
    (base + 2) % 360
}

/// Builds the ring palette.
fn ring_colors() -> (colors: Vec<Color>)
    ensures
        colors@ == ring_palette(),
{
    let colors = vec![
        Color::new(128, 0, 0),
        Color::new(0, 128, 0),
        Color::new(0, 0, 128),
        Color::new(128, 128, 0),
        Color::new(128, 0, 128),
        Color::new(0, 128, 128),
        Color::new(128, 64, 0),
        Color::new(64, 128, 64),
    ];
    assert(colors@ =~= ring_palette());
    colors
}

/// Builds the band palette.
fn band_colors() -> (colors: Vec<Color>)
    ensures
        colors@ == band_palette(),
{
    let colors = vec![
        Color::new(128, 128, 0),
        Color::new(255, 128, 0),
        Color::new(255, 0, 0),
        Color::new(0, 0, 0),
        Color::new(0, 0, 0),
        Color::new(0, 0, 0),
        Color::new(0, 0, 0),
        Color::new(0, 0, 0),
        Color::new(0, 0, 0),
    ];
    assert(colors@ =~= band_palette());
    colors
}

/// Renders the countdown bands: the strip is cut into bands of ten LEDs, band
/// `b` shows palette entry `(b + counter) mod 9`, and every LED behind the
/// ninth band is off.
pub fn rocket_start(counter: usize, len: usize) -> (leds: Vec<Color>)
    ensures
        leds@ == rocket_start_frame(counter as nat, len as nat),
{
    let colors = band_colors();
    let shift: usize = counter % NUM_ROUNDS;
    let mut leds: Vec<Color> = Vec::new();
    let mut i: usize = 0;
    while i < len
        invariant
            i <= len,
            shift == counter % 9,
            colors@ == band_palette(),
            leds@.len() == i,
            forall|j: int| 0 <= j < i ==> leds@[j] == rocket_start_led(counter as nat, j as nat),
        decreases len - i,
    {
        let band: usize = i / BAND_WIDTH;
        let color = if band < NUM_ROUNDS {
            colors[(band + shift) % NUM_ROUNDS]
        } else {
            Color::new(0, 0, 0)
        };
        leds.push(color);
        i += 1;
    }
    assert(leds@ =~= rocket_start_frame(counter as nat, len as nat));
    leds
}

/// Renders the rotating rings: LED `i` belongs to group `i mod 8`, and group
/// `g` shows palette entry `(g + offset) mod 8`.
pub fn rotate(offset: usize, len: usize) -> (leds: Vec<Color>)
    ensures
        leds@ == rotate_frame(offset as nat, len as nat),
{
    let colors = ring_colors();
    let shift: usize = offset % NUM_LEDS_ROUND;
    let mut leds: Vec<Color> = Vec::new();
    let mut i: usize = 0;
    while i < len
        invariant
            i <= len,
            shift == offset % 8,
            colors@ == ring_palette(),
            leds@.len() == i,
            forall|j: int| 0 <= j < i ==> leds@[j] == rotate_led(offset as nat, j as nat),
        decreases len - i,
    {
        let group: usize = i % NUM_LEDS_ROUND;
        leds.push(colors[(group + shift) % NUM_LEDS_ROUND]);
        i += 1;
    }
    assert(leds@ =~= rotate_frame(offset as nat, len as nat));
    leds
}

/// Renders the rainbow: LED `i` has the hue `base + 5 i`, taken on the circle
/// of 360 degrees, at the pattern's fixed saturation and value.
pub fn rainbow(base: u16, len: usize) -> (leds: Vec<Hsv>)
    ensures
        leds@ == rainbow_frame(base as nat, len as nat),
        forall|i: int| 0 <= i < leds@.len() ==> (#[trigger] leds@[i]).wf(),
{
    let mut hue: u16 = base % FULL_TURN;
    let mut leds: Vec<Hsv> = Vec::new();
    let mut i: usize = 0;
    while i < len
        invariant
            i <= len,
            hue == rainbow_hue(base as nat, i as nat),
            leds@.len() == i,
            forall|j: int| 0 <= j < i ==> leds@[j] == rainbow_led(base as nat, j as nat),
        decreases len - i,
    {
        leds.push(Hsv { hue, saturation: RAINBOW_SATURATION, value: RAINBOW_VALUE });
        hue = (hue + LED_HUE_STEP) % FULL_TURN;
        i += 1;
    }
    assert(leds@ =~= rainbow_frame(base as nat, len as nat));
    leds
}

/// Renders a frame whose LEDs all show `color`.
fn solid(color: Color, len: usize) -> (leds: Vec<Color>)
    ensures
        leds@ == solid_frame(color, len as nat),
{
    let mut leds: Vec<Color> = Vec::new();
    let mut i: usize = 0;
    while i < len
        invariant
            i <= len,
            leds@.len() == i,
            forall|j: int| 0 <= j < i ==> leds@[j] == color,
        decreases len - i,
    {
        leds.push(color);
        i += 1;
    }
    assert(leds@ =~= solid_frame(color, len as nat));
    leds
}

/// Renders the white pattern: every LED at full intensity on all channels.
pub fn white(len: usize) -> (leds: Vec<Color>)
    ensures
        leds@ == solid_frame(white_color(), len as nat),
{
    solid(Color::new(255, 255, 255), len)
}

/// Renders the warm white pattern: every LED in the same warm tone.
pub fn warm_white(len: usize) -> (leds: Vec<Color>)
    ensures
        leds@ == solid_frame(warm_white_color(), len as nat),
{
    solid(Color::new(255, 140, 80), len)
}

/// Moves the ring offset on by one tick: up by one, and from the last ring
/// position back to zero.
pub fn next_offset(offset: usize) -> (next: usize)
    ensures
        next == rotate_next(offset as nat),
{
    (offset % NUM_LEDS_ROUND + 1) % NUM_LEDS_ROUND
}

/// Moves the countdown counter on by one tick: down by one, and from zero
/// back to the last band.
pub fn next_counter(counter: usize) -> (next: usize)
    ensures
        next == rocket_start_next(counter as nat),
{
    if counter == 0 {
        NUM_ROUNDS - 1
    } else {
        counter - 1
    }
}

/// Moves the rainbow's base hue on by one tick: up by two degrees on the
/// circle.
pub fn next_hue(base: u16) -> (next: u16)
    ensures
        next == rainbow_next(base as nat),
{
    (base % FULL_TURN + HUE_STEP) % FULL_TURN
}

/// Hues wrap at the full turn: every hue of a rainbow frame lies on the
/// circle, and a base hue that is a full turn further on gives the same frame.
pub proof fn law_hues_wrap(base: nat, len: nat)
    ensures
        forall|index: nat| #[trigger] rainbow_hue(base, index) < 360,
        forall|index: nat| #[trigger]
            rainbow_hue(base + 360, index) == rainbow_hue(base % 360, index),
        rainbow_frame(base + 360, len) == rainbow_frame(base % 360, len),
        rainbow_frame(base, len) == rainbow_frame(base % 360, len),
{
    assert forall|index: nat| #[trigger]
        rainbow_hue(base + 360, index) == rainbow_hue(base % 360, index) by {
        assert((base + 360 + 5 * index) % 360 == (base % 360 + 5 * index) % 360);
    }
    assert forall|index: nat| #[trigger] rainbow_hue(base, index) == rainbow_hue(
        base % 360,
        index,
    ) by {
        assert((base + 5 * index) % 360 == (base % 360 + 5 * index) % 360);
    }
    assert(rainbow_frame(base + 360, len) =~= rainbow_frame(base % 360, len));
    assert(rainbow_frame(base, len) =~= rainbow_frame(base % 360, len));
}

} // verus!
