//! Pulses: a pin level held for a number of clock ticks.

use crate::duration::duration_nanos;
use std::time::Duration;
use vstd::prelude::*;

verus! {

/// The largest tick count a pulse can carry: the peripheral stores a
/// duration in 15 bits.
pub const MAX_TICKS: u16 = 32767;

/// Level of the output pin.
#[derive(Clone, Copy, Debug, PartialEq, Eq, Structural)]
pub enum PinState {
    Low,
    High,
}

/// Why a signal could not be built.
#[derive(Clone, Copy, Debug, PartialEq, Eq, Structural)]
pub enum HardwareError {
    /// A duration, counted in ticks, does not fit in 16 bits.
    Overflow,
    /// A tick count fits in 16 bits but not in the 15 bits of a pulse.
    InvalidArg,
}

/// A pin level together with the number of ticks it is held.
#[derive(Clone, Copy, Debug, PartialEq, Eq, Structural)]
pub struct Pulse {
    pub pin_state: PinState,
    pub ticks: u16,
}

/// Whole ticks of a clock running at `ticks_hz` that fit in `nanos`
/// nanoseconds, rounded down.
pub open spec fn ticks_in(ticks_hz: u32, nanos: nat) -> nat {
    nanos * (ticks_hz as nat) / 1_000_000_000
}

/// What [`duration_to_ticks`] returns for a span of `nanos` nanoseconds.
pub open spec fn checked_ticks(ticks_hz: u32, nanos: nat) -> Result<u16, HardwareError> {
    if ticks_in(ticks_hz, nanos) <= u16::MAX {
        Ok(ticks_in(ticks_hz, nanos) as u16)
    } else {
        Err(HardwareError::Overflow)
    }
}

/// Converts a duration into ticks of a clock running at `ticks_hz`,
/// rounding down. Fails with [`HardwareError::Overflow`] exactly when the
/// count does not fit in 16 bits.
pub fn duration_to_ticks(ticks_hz: u32, duration: &Duration) -> (r: Result<u16, HardwareError>)
    ensures
        r == checked_ticks(ticks_hz, duration_nanos(*duration)),
{
    let nanos: u128 = duration.as_nanos();
    match nanos.checked_mul(ticks_hz as u128) {
        None => Err(HardwareError::Overflow),
        Some(product) => {
            let ticks: u128 = product / 1_000_000_000;
            if ticks > 65535 {
                Err(HardwareError::Overflow)
            } else {
                Ok(ticks as u16)
            }
        },
    }
}

/// A pulse pair as the peripheral sends it for one bit: the pin goes high,
/// then low, each time for a number of ticks that it can count.
pub open spec fn pair_wf(pair: (Pulse, Pulse)) -> bool {
    &&& pair.0.pin_state == PinState::High
    &&& pair.1.pin_state == PinState::Low
    &&& pair.0.wf()
    &&& pair.1.wf()
}

impl Pulse {
    /// The tick count fits in the 15 bits that the peripheral has for it.
    pub open spec fn wf(&self) -> bool {
        self.ticks <= MAX_TICKS
    }

    /// What [`Pulse::new`] returns.
    pub open spec fn checked(pin_state: PinState, ticks: u16) -> Result<Pulse, HardwareError> {
        if ticks <= MAX_TICKS {
            Ok(Pulse { pin_state, ticks })
        } else {
            Err(HardwareError::InvalidArg)
        }
    }

    /// What [`Pulse::new_with_duration`] returns for a span of `nanos`
    /// nanoseconds.
    pub open spec fn checked_with_nanos(ticks_hz: u32, pin_state: PinState, nanos: nat) -> Result<
        Pulse,
        HardwareError,
    > {
        match checked_ticks(ticks_hz, nanos) {
            Ok(ticks) => Pulse::checked(pin_state, ticks),
            Err(e) => Err(e),
        }
    }

    /// A pulse of `ticks` ticks at level `pin_state`. Fails with
    /// [`HardwareError::InvalidArg`] exactly when `ticks` exceeds
    /// [`MAX_TICKS`].
    pub fn new(pin_state: PinState, ticks: u16) -> (r: Result<Pulse, HardwareError>)
        ensures
            r == Pulse::checked(pin_state, ticks),
            r matches Ok(p) ==> p.wf(),
    {
        if ticks > MAX_TICKS {
            Err(HardwareError::InvalidArg)
        } else {
            Ok(Pulse { pin_state, ticks })
        }
    }

    /// A pulse at level `pin_state` that lasts as many whole ticks of a
    /// clock running at `ticks_hz` as fit in `duration`.
    pub fn new_with_duration(ticks_hz: u32, pin_state: PinState, duration: &Duration) -> (r: Result<
        Pulse,
        HardwareError,
    >)
        ensures
            r == Pulse::checked_with_nanos(ticks_hz, pin_state, duration_nanos(*duration)),
            r matches Ok(p) ==> p.wf(),
    {
        let ticks: u16 = duration_to_ticks(ticks_hz, duration)?;
        Pulse::new(pin_state, ticks)
    }
}

} // verus!
