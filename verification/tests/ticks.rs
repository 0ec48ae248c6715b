use std::time::Duration;
use ws2812b::{duration_to_ticks, ns, HardwareError, PinState, Pulse, MAX_TICKS};

#[test]
fn ns_is_a_span_of_that_many_nanoseconds() {
    assert_eq!(ns(0), Duration::from_nanos(0));
    assert_eq!(ns(350).as_nanos(), 350);
    assert_eq!(ns(1_000_000_000), Duration::from_secs(1));
    assert_eq!(ns(u64::MAX).as_nanos(), 18_446_744_073_709_551_615);
}

#[test]
fn protocol_durations_at_forty_megahertz() {
    assert_eq!(duration_to_ticks(40_000_000, &ns(350)), Ok(14));
    assert_eq!(duration_to_ticks(40_000_000, &ns(800)), Ok(32));
    assert_eq!(duration_to_ticks(40_000_000, &ns(700)), Ok(28));
    assert_eq!(duration_to_ticks(40_000_000, &ns(600)), Ok(24));
}

#[test]
fn ticks_are_rounded_down() {
    assert_eq!(duration_to_ticks(1_000_000, &ns(999)), Ok(0));
    assert_eq!(duration_to_ticks(1_000_000, &ns(1_000)), Ok(1));
    assert_eq!(duration_to_ticks(1_000_000, &ns(1_999)), Ok(1));
    assert_eq!(duration_to_ticks(3, &ns(1_000_000_000)), Ok(3));
    assert_eq!(duration_to_ticks(3, &ns(999_999_999)), Ok(2));
}

#[test]
fn zero_clock_or_zero_span_gives_zero_ticks() {
    assert_eq!(duration_to_ticks(0, &ns(u64::MAX)), Ok(0));
    assert_eq!(duration_to_ticks(u32::MAX, &ns(0)), Ok(0));
}

#[test]
fn ticks_fit_in_sixteen_bits_or_overflow() {
    assert_eq!(duration_to_ticks(1_000_000_000, &ns(65_535)), Ok(65_535));
    assert_eq!(
        duration_to_ticks(1_000_000_000, &ns(65_536)),
        Err(HardwareError::Overflow)
    );
    assert_eq!(
        duration_to_ticks(u32::MAX, &ns(u64::MAX)),
        Err(HardwareError::Overflow)
    );
    assert_eq!(
        duration_to_ticks(u32::MAX, &Duration::MAX),
        Err(HardwareError::Overflow)
    );
}

#[test]
fn seconds_convert_as_nanoseconds_do() {
    assert_eq!(duration_to_ticks(40, &Duration::from_secs(2)), Ok(80));
    assert_eq!(duration_to_ticks(1_000, &Duration::from_millis(1_500)), Ok(1_500));
}

#[test]
fn pulse_holds_at_most_fifteen_bits_of_ticks() {
    assert_eq!(MAX_TICKS, 32_767);
    assert_eq!(
        Pulse::new(PinState::High, 0),
        Ok(Pulse { pin_state: PinState::High, ticks: 0 })
    );
    assert_eq!(
        Pulse::new(PinState::Low, 32_767),
        Ok(Pulse { pin_state: PinState::Low, ticks: 32_767 })
    );
    assert_eq!(Pulse::new(PinState::Low, 32_768), Err(HardwareError::InvalidArg));
    assert_eq!(Pulse::new(PinState::High, u16::MAX), Err(HardwareError::InvalidArg));
}

#[test]
fn pulse_from_duration() {
    assert_eq!(
        Pulse::new_with_duration(40_000_000, PinState::High, &ns(700)),
        Ok(Pulse { pin_state: PinState::High, ticks: 28 })
    );
    assert_eq!(
        Pulse::new_with_duration(40_000_000, PinState::Low, &ns(600)),
        Ok(Pulse { pin_state: PinState::Low, ticks: 24 })
    );
    assert_eq!(
        Pulse::new_with_duration(1_000_000_000, PinState::Low, &ns(32_767)),
        Ok(Pulse { pin_state: PinState::Low, ticks: 32_767 })
    );
}

#[test]
fn pulse_from_duration_too_long_for_a_pulse() {
    assert_eq!(
        Pulse::new_with_duration(1_000_000_000, PinState::High, &ns(32_768)),
        Err(HardwareError::InvalidArg)
    );
    assert_eq!(
        Pulse::new_with_duration(1_000_000_000, PinState::High, &ns(65_535)),
        Err(HardwareError::InvalidArg)
    );
}

#[test]
fn pulse_from_duration_too_long_for_sixteen_bits() {
    assert_eq!(
        Pulse::new_with_duration(1_000_000_000, PinState::High, &ns(65_536)),
        Err(HardwareError::Overflow)
    );
    assert_eq!(
        Pulse::new_with_duration(u32::MAX, PinState::Low, &Duration::MAX),
        Err(HardwareError::Overflow)
    );
}
