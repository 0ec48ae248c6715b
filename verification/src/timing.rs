//! The four pulses of the wire protocol, measured in ticks of a given clock.

use crate::duration::ns;
use crate::pulse::{pair_wf, ticks_in, HardwareError, PinState, Pulse};
use vstd::prelude::*;

verus! {

/// High phase of a zero bit, in nanoseconds.
pub const T0H_NS: u64 = 350;

/// Low phase of a zero bit, in nanoseconds.
pub const T0L_NS: u64 = 800;

/// High phase of a one bit, in nanoseconds.
pub const T1H_NS: u64 = 700;

/// Low phase of a one bit, in nanoseconds.
pub const T1L_NS: u64 = 600;

/// Divider to set on the peripheral's source clock: half of an 80 MHz
/// clock resolves the shortest phase into 14 ticks and keeps the longest
/// at 32.
pub const CLOCK_DIVIDER: u8 = 2;

/// The slowest clock at which the high phases of a zero and of a one still
/// last a different number of ticks.
pub const MIN_DISTINCT_HZ: u32 = 1_428_572;

/// The pulses that stand for a zero bit and for a one bit.
#[derive(Clone, Copy, Debug, PartialEq, Eq, Structural)]
pub struct BitTiming {
    pub t0h: Pulse,
    pub t0l: Pulse,
    pub t1h: Pulse,
    pub t1l: Pulse,
}

/// A pulse at level `pin_state` of as many whole ticks as fit in `nanos`
/// nanoseconds.
pub open spec fn pulse_of(ticks_hz: u32, pin_state: PinState, nanos: u64) -> Pulse {
    Pulse { pin_state, ticks: ticks_in(ticks_hz, nanos as nat) as u16 }
}

impl BitTiming {
    /// The protocol's nominal durations in ticks of a clock running at
    /// `ticks_hz`, each rounded down.
    pub open spec fn at(ticks_hz: u32) -> BitTiming {
        BitTiming {
            t0h: pulse_of(ticks_hz, PinState::High, T0H_NS),
            t0l: pulse_of(ticks_hz, PinState::Low, T0L_NS),
            t1h: pulse_of(ticks_hz, PinState::High, T1H_NS),
            t1l: pulse_of(ticks_hz, PinState::Low, T1L_NS),
        }
    }

    /// Each bit is a high pulse followed by a low pulse, and every pulse
    /// is one the peripheral can hold.
    pub open spec fn wf(&self) -> bool {
        &&& pair_wf((self.t0h, self.t0l))
        &&& pair_wf((self.t1h, self.t1l))
    }

    /// A receiver can tell the two bits apart by the length of the high
    /// phase.
    pub open spec fn distinct(&self) -> bool {
        self.t0h.ticks != self.t1h.ticks
    }

    /// The pulse pair that stands for `bit`.
    pub open spec fn pair(&self, bit: bool) -> (Pulse, Pulse) {
        if bit {
            (self.t1h, self.t1l)
        } else {
            (self.t0h, self.t0l)
        }
    }

    /// The timing for a clock running at `ticks_hz`. The conversion cannot
    /// fail: at any 32-bit frequency the longest of the four durations
    /// stays under 3436 ticks.
    pub fn new(ticks_hz: u32) -> (r: Result<BitTiming, HardwareError>)
        ensures
            r == Ok::<BitTiming, HardwareError>(BitTiming::at(ticks_hz)),
            r.unwrap().wf(),
    {
        let t0h = Pulse::new_with_duration(ticks_hz, PinState::High, &ns(T0H_NS))?;
        let t0l = Pulse::new_with_duration(ticks_hz, PinState::Low, &ns(T0L_NS))?;
        let t1h = Pulse::new_with_duration(ticks_hz, PinState::High, &ns(T1H_NS))?;
        let t1l = Pulse::new_with_duration(ticks_hz, PinState::Low, &ns(T1L_NS))?;
        Ok(BitTiming { t0h, t0l, t1h, t1l })
    }

    /// The pulse pair that stands for `bit`.
    pub fn pulse_pair(&self, bit: bool) -> (pair: (Pulse, Pulse))
        ensures
            pair == self.pair(bit),
    {
        if bit {
            (self.t1h, self.t1l)
        } else {
            (self.t0h, self.t0l)
        }
    }
}

/// At any clock the nominal timing is well formed, and a one never has the
/// shorter high phase nor the longer low phase. The two bits differ in
/// their high phase exactly from [`MIN_DISTINCT_HZ`] on.
pub proof fn lemma_timing_at(ticks_hz: u32)
    ensures
        BitTiming::at(ticks_hz).wf(),
        BitTiming::at(ticks_hz).t0h.ticks <= BitTiming::at(ticks_hz).t1h.ticks,
        BitTiming::at(ticks_hz).t1l.ticks <= BitTiming::at(ticks_hz).t0l.ticks,
        BitTiming::at(ticks_hz).distinct() <==> ticks_hz >= MIN_DISTINCT_HZ,
{
}

} // verus!
