//! From colours to the sequence of pulse pairs on the wire.

use crate::color::{rgb_components, Color};
use crate::pulse::{pair_wf, HardwareError, Pulse};
use crate::timing::BitTiming;
use rgb::RGB8;
use vstd::prelude::*;

verus! {

/// Number of LEDs on the strip that the driver is laid out for.
pub const N_PIXELS: usize = 5;

/// Number of pulse pairs sent for one LED.
pub const BITS_PER_PIXEL: usize = 24;

/// Bit `offset` of `byte`, counted from the least significant one.
pub open spec fn bit_of(byte: u8, offset: u32) -> bool {
    (byte >> offset) & 1 == 1
}

/// The bit sent `k`-th for a LED of colour `color`: the bytes go out in wire
/// order, each with its most significant bit first.
pub open spec fn color_bit(color: Color, k: int) -> bool {
    bit_of(color.wire_bytes()[k / 8], (7 - k % 8) as u32)
}

/// The bit sent `i`-th for the strip `pixels`: the LEDs go out in the order
/// in which they stand.
pub open spec fn wire_bit(pixels: Seq<Color>, i: int) -> bool {
    color_bit(pixels[i / 24], i % 24)
}

/// The eight bits of a byte in the order they are sent: most significant
/// first.
pub open spec fn byte_bits(byte: u8) -> Seq<bool> {
    Seq::new(8, |k: int| bit_of(byte, (7 - k) as u32))
}

/// The eight pulse pairs of one byte, most significant bit first.
pub open spec fn byte_signal(byte: u8, timing: BitTiming) -> Seq<(Pulse, Pulse)> {
    Seq::new(8, |k: int| timing.pair(byte_bits(byte)[k]))
}

/// The twenty-four pulse pairs of one LED.
pub open spec fn color_signal(color: Color, timing: BitTiming) -> Seq<(Pulse, Pulse)> {
    Seq::new(24, |k: int| timing.pair(color_bit(color, k)))
}

/// The signal for a whole strip: one pulse pair for each bit on the wire.
pub open spec fn frame_signal(pixels: Seq<Color>, timing: BitTiming) -> Seq<(Pulse, Pulse)> {
    Seq::new(24 * pixels.len(), |i: int| timing.pair(wire_bit(pixels, i)))
}

/// Where each bit of a strip stands in its signal: of LED `p`, the byte
/// `c` in wire order (0 green, 1 red, 2 blue) takes eight places in a row,
/// and its bit `7 - k` stands at the `k`-th of them.
pub proof fn lemma_frame_layout(pixels: Seq<Color>, timing: BitTiming, p: int, c: int, k: int)
    requires
        0 <= p < pixels.len(),
        0 <= c < 3,
        0 <= k < 8,
    ensures
        0 <= 24 * p + 8 * c + k < frame_signal(pixels, timing).len(),
        frame_signal(pixels, timing)[24 * p + 8 * c + k] == timing.pair(
            bit_of(pixels[p].wire_bytes()[c], (7 - k) as u32),
        ),
        frame_signal(pixels, timing)[24 * p + 8 * c + k] == byte_signal(
            pixels[p].wire_bytes()[c],
            timing,
        )[k],
{
    let i = 24 * p + 8 * c + k;
    assert(i / 24 == p && i % 24 == 8 * c + k);
    assert((8 * c + k) / 8 == c && (8 * c + k) % 8 == k);
}

/// The colours of a strip of pixels of the `rgb` crate.
pub open spec fn strip_colors(rgb: Seq<RGB8>) -> Seq<Color> {
    Seq::new(rgb.len(), |i: int| Color::of_components(rgb_components(rgb[i])))
}

/// Bit `offset` of `byte`, counted from the least significant one.
pub fn bit_at(byte: u8, offset: u32) -> (bit: bool)
    requires
        offset < 8,
    ensures
        bit == bit_of(byte, offset),
{
    (byte >> offset) & 1 == 1
}

/// Appends the pulse pairs of `byte` to `signal`.
fn push_byte(byte: u8, timing: &BitTiming, signal: &mut Vec<(Pulse, Pulse)>)
    ensures
        final(signal)@ == old(signal)@ + byte_signal(byte, *timing),
{
    let mut k: u32 = 0;
    while k < 8
        invariant
            k <= 8,
            signal@ == old(signal)@ + byte_signal(byte, *timing).take(k as int),
        decreases 8 - k,
    {
        let bit = bit_at(byte, 7 - k);
        signal.push(timing.pulse_pair(bit));
        k += 1;
    }
}

/// The pulse pairs of one byte, most significant bit first.
pub fn encode_byte(byte: u8, timing: &BitTiming) -> (signal: Vec<(Pulse, Pulse)>)
    ensures
        signal@ == byte_signal(byte, *timing),
{
    let mut signal: Vec<(Pulse, Pulse)> = Vec::new();
    push_byte(byte, timing, &mut signal);
    signal
}

/// Appends the pulse pairs of one LED to `signal`.
fn push_color(color: &Color, timing: &BitTiming, signal: &mut Vec<(Pulse, Pulse)>)
    ensures
        final(signal)@ == old(signal)@ + color_signal(*color, *timing),
{
    let bytes = color.to_wire();
    let mut c: usize = 0;
    while c < 3
        invariant
            c <= 3,
            bytes@ == color.wire_bytes(),
            signal@ == old(signal)@ + color_signal(*color, *timing).take(8 * c),
        decreases 3 - c,
    {
        push_byte(bytes[c], timing, signal);
        c += 1;
    }
}

/// The signal for the strip `pixels` with the bit pulses of `timing`: for
/// each LED in turn its green, red and blue byte, each with the most
/// significant bit first.
pub fn encode_frame<const N: usize>(pixels: &[Color; N], timing: &BitTiming) -> (signal: Vec<
    (Pulse, Pulse),
>)
    ensures
        signal@ == frame_signal(pixels@, *timing),
        signal@.len() == N * BITS_PER_PIXEL,
        timing.wf() ==> forall|i: int| 0 <= i < signal@.len() ==> pair_wf(#[trigger] signal@[i]),
{
    let mut signal: Vec<(Pulse, Pulse)> = Vec::new();
    let mut i: usize = 0;
    while i < N
        invariant
            i <= N,
            pixels@.len() == N,
            signal@ == frame_signal(pixels@, *timing).take(24 * i),
        decreases N - i,
    {
        push_color(&pixels[i], timing, &mut signal);
        i += 1;
    }
    signal
}

/// The signal that shows the pixels `rgb` on a strip, for a peripheral
/// whose counter runs at `ticks_hz`: the protocol's four durations are
/// converted to ticks of that clock, and every bit of the strip becomes the
/// pulse pair of its value.
pub fn encode_pixels<const N: usize>(ticks_hz: u32, rgb: &[RGB8; N]) -> (r: Result<
    Vec<(Pulse, Pulse)>,
    HardwareError,
>)
    ensures
        r is Ok,
        r.unwrap()@ == frame_signal(strip_colors(rgb@), BitTiming::at(ticks_hz)),
        r.unwrap()@.len() == N * BITS_PER_PIXEL,
        forall|i: int| 0 <= i < r.unwrap()@.len() ==> pair_wf(#[trigger] r.unwrap()@[i]),
{
    let timing = BitTiming::new(ticks_hz)?;
    let mut colors: [Color; N] = [Color::new(0, 0, 0); N];
    let mut i: usize = 0;
    while i < N
        invariant
            i <= N,
            rgb@.len() == N,
            forall|j: int| 0 <= j < i ==> colors@[j] == strip_colors(rgb@)[j],
        decreases N - i,
    {
        colors[i] = Color::from_rgb8(&rgb[i]);
        i += 1;
    }
    assert(colors@ =~= strip_colors(rgb@));
    Ok(encode_frame(&colors, &timing))
}

} // verus!
