//! Signal encoding for WS2812-family addressable LED strips.
//!
//! A strip is driven over one wire: every data bit is sent as a high pulse
//! followed by a low pulse, and the lengths of the two tell a one from a
//! zero. This crate turns a clock frequency and a row of colours into the
//! exact sequence of pulses that a pulse-generation peripheral has to emit.
//!
//! [`encode_pixels`] does the whole of it. Its parts are public as well:
//! [`BitTiming`] holds the four pulses of the protocol in ticks of a given
//! clock, [`encode_frame`] lays out the bits of a strip, and
//! [`decode_byte`] reads a byte back the way a LED does.

pub mod color;
pub mod decoder;
pub mod duration;
pub mod encoder;
pub mod pulse;
pub mod timing;

pub use color::Color;
pub use decoder::{classify, decode_byte};
pub use duration::ns;
pub use encoder::{bit_at, encode_byte, encode_frame, encode_pixels, BITS_PER_PIXEL, N_PIXELS};
pub use pulse::{duration_to_ticks, HardwareError, PinState, Pulse, MAX_TICKS};
pub use timing::{
    BitTiming, CLOCK_DIVIDER, MIN_DISTINCT_HZ, T0H_NS, T0L_NS, T1H_NS, T1L_NS,
};
