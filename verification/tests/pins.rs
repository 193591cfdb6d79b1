//! Tests of pin ownership and the typestate handles' restore behaviour.

use gpio_hal::mem::GpioMem;
use gpio_hal::pool::PinPool;
use gpio_hal::{Error, Mode, PullUpDown};

#[test]
fn take_twice_fails_then_release_allows_retake() {
    let mut pool = PinPool::new();
    let pin = pool.take(4).unwrap();
    assert_eq!(pool.take(4).unwrap_err(), Error::PinInUse);
    pin.release(&mut pool);
    let pin = pool.take(4).unwrap();
    assert_eq!(pin.pin(), 4);
    pin.release(&mut pool);
}

#[test]
fn distinct_pins_do_not_contend() {
    let mut pool = PinPool::new();
    let a = pool.take(0).unwrap();
    let b = pool.take(53).unwrap();
    assert_eq!(a.pin(), 0);
    assert_eq!(b.pin(), 53);
    a.release(&mut pool);
    b.release(&mut pool);
}

#[test]
fn restore_on_release_returns_previous_mode() {
    let mut mem = GpioMem::open();
    let mut pool = PinPool::new();
    // leave pin 12 configured as an output
    let pin = pool.take(12).unwrap();
    let mut out = pin.into_output(&mut mem);
    out.set_reset_on_drop(false);
    assert!(!out.reset_on_drop());
    out.release(&mut mem, &mut pool);
    // configure it as input; restore-on-release (the default) brings the
    // output mode back
    let pin = pool.take(12).unwrap();
    let input = pin.into_input(&mut mem);
    assert!(input.reset_on_drop());
    input.release(&mut mem, &mut pool);
    let pin = pool.take(12).unwrap();
    assert_eq!(pin.mode(&mem), Mode::Output);
    pin.release(&mut pool);
}

#[test]
fn disabled_restore_keeps_configured_mode() {
    let mut mem = GpioMem::open();
    let mut pool = PinPool::new();
    let pin = pool.take(12).unwrap();
    let mut out = pin.into_output(&mut mem);
    out.set_reset_on_drop(false);
    out.release(&mut mem, &mut pool);
    let pin = pool.take(12).unwrap();
    let mut input = pin.into_input(&mut mem);
    input.set_reset_on_drop(false);
    input.release(&mut mem, &mut pool);
    let pin = pool.take(12).unwrap();
    assert_eq!(pin.mode(&mem), Mode::Input);
    pin.release(&mut pool);
}

#[test]
fn release_without_mode_change_restores_nothing() {
    // a pin already in the target mode records no previous mode, so
    // restoration is a no-op and the mode simply stays
    let mut mem = GpioMem::open();
    let mut pool = PinPool::new();
    let pin = pool.take(20).unwrap();
    let input = pin.into_input(&mut mem);
    input.release(&mut mem, &mut pool);
    let pin = pool.take(20).unwrap();
    assert_eq!(pin.mode(&mem), Mode::Input);
    pin.release(&mut pool);
}

#[test]
fn input_pull_is_cleared_on_release() {
    let mut mem = GpioMem::open();
    let mut pool = PinPool::new();
    let pin = pool.take(9).unwrap();
    let input = pin.into_input_pullup(&mut mem);
    assert_eq!(mem.pull_state(9), PullUpDown::PullUp);
    input.release(&mut mem, &mut pool);
    assert_eq!(mem.pull_state(9), PullUpDown::Off);
}

#[test]
fn disabled_restore_keeps_pull() {
    let mut mem = GpioMem::open();
    let mut pool = PinPool::new();
    let pin = pool.take(9).unwrap();
    let mut input = pin.into_input_pulldown(&mut mem);
    assert_eq!(mem.pull_state(9), PullUpDown::PullDown);
    input.set_reset_on_drop(false);
    input.release(&mut mem, &mut pool);
    assert_eq!(mem.pull_state(9), PullUpDown::PullDown);
}

#[test]
fn output_configuration_leaves_pull_alone() {
    let mut mem = GpioMem::open();
    let mut pool = PinPool::new();
    // latch a pull-down, keep it past release
    let pin = pool.take(5).unwrap();
    let mut input = pin.into_input_pulldown(&mut mem);
    input.set_reset_on_drop(false);
    input.release(&mut mem, &mut pool);
    // output configuration must not touch the pull state
    let pin = pool.take(5).unwrap();
    let out = pin.into_output(&mut mem);
    assert_eq!(mem.pull_state(5), PullUpDown::PullDown);
    // and releasing an output handle (which applied no pull) leaves it too
    out.release(&mut mem, &mut pool);
    assert_eq!(mem.pull_state(5), PullUpDown::PullDown);
}

#[test]
fn alt_pin_configures_and_restores() {
    let mut mem = GpioMem::open();
    let mut pool = PinPool::new();
    let pin = pool.take(14).unwrap();
    let alt = pin.into_alt(Mode::Alt5, &mut mem);
    assert_eq!(alt.pin(), 14);
    alt.release(&mut mem, &mut pool);
    let pin = pool.take(14).unwrap();
    assert_eq!(pin.mode(&mem), Mode::Input);
    pin.release(&mut pool);
}

#[test]
fn handle_reports_its_pin_number() {
    let mut mem = GpioMem::open();
    let mut pool = PinPool::new();
    let pin = pool.take(27).unwrap();
    assert_eq!(pin.pin(), 27);
    let input = pin.into_input(&mut mem);
    assert_eq!(input.pin(), 27);
    input.release(&mut mem, &mut pool);
    let pin = pool.take(27).unwrap();
    let out = pin.into_output(&mut mem);
    assert_eq!(out.pin(), 27);
    out.release(&mut mem, &mut pool);
}
