//! Tests of the interrupt coordinator: trigger exclusivity, poll decisions,
//! cached edges, and asynchronous dispatch.

use gpio_hal::interrupt::{InterruptRegistry, TriggerMode};
use gpio_hal::mem::GpioMem;
use gpio_hal::pool::PinPool;
use gpio_hal::{trigger_matches_level, Error, Level, Trigger};

#[test]
fn poll_without_trigger_is_refused() {
    let mut mem = GpioMem::open();
    let mut pool = PinPool::new();
    let mut reg = InterruptRegistry::new();
    let pin = pool.take(6).unwrap();
    let mut input = pin.into_input(&mut mem);
    assert_eq!(
        input.poll_interrupt(&mut reg, false, None),
        Err(Error::PinNotConfigured)
    );
}

#[test]
fn poll_with_no_pending_edge_returns_none() {
    // what a zero-length timeout yields on a pin with nothing pending: the
    // wait reports no edge, and the poll returns none at once
    let mut mem = GpioMem::open();
    let mut pool = PinPool::new();
    let mut reg = InterruptRegistry::new();
    let pin = pool.take(6).unwrap();
    let mut input = pin.into_input(&mut mem);
    input.set_interrupt(&mut reg, Trigger::RisingEdge).unwrap();
    assert_eq!(input.poll_interrupt(&mut reg, false, None), Ok(None));
    assert_eq!(input.poll_interrupt(&mut reg, true, None), Ok(None));
}

#[test]
fn poll_returns_matching_edge_only() {
    let mut mem = GpioMem::open();
    let mut pool = PinPool::new();
    let mut reg = InterruptRegistry::new();
    let pin = pool.take(23).unwrap();
    let mut input = pin.into_input(&mut mem);
    input.set_interrupt(&mut reg, Trigger::RisingEdge).unwrap();
    assert_eq!(
        input.poll_interrupt(&mut reg, false, Some(Level::High)),
        Ok(Some(Level::High))
    );
    assert_eq!(input.poll_interrupt(&mut reg, false, Some(Level::Low)), Ok(None));
    input.set_interrupt(&mut reg, Trigger::Both).unwrap();
    assert_eq!(
        input.poll_interrupt(&mut reg, false, Some(Level::Low)),
        Ok(Some(Level::Low))
    );
}

#[test]
fn cached_edge_is_returned_once_without_blocking() {
    let mut mem = GpioMem::open();
    let mut pool = PinPool::new();
    let mut reg = InterruptRegistry::new();
    let pin = pool.take(8).unwrap();
    let mut input = pin.into_input(&mut mem);
    input.set_interrupt(&mut reg, Trigger::FallingEdge).unwrap();
    // an edge arrives while nobody is polling
    reg.note_event(8, Level::Low);
    // without reset the cached edge is returned immediately…
    assert_eq!(
        input.poll_interrupt(&mut reg, false, None),
        Ok(Some(Level::Low))
    );
    // …and only once
    assert_eq!(input.poll_interrupt(&mut reg, false, None), Ok(None));
}

#[test]
fn reset_discards_cached_edge() {
    let mut mem = GpioMem::open();
    let mut pool = PinPool::new();
    let mut reg = InterruptRegistry::new();
    let pin = pool.take(8).unwrap();
    let mut input = pin.into_input(&mut mem);
    input.set_interrupt(&mut reg, Trigger::Both).unwrap();
    reg.note_event(8, Level::High);
    assert_eq!(input.poll_interrupt(&mut reg, true, None), Ok(None));
    assert_eq!(input.poll_interrupt(&mut reg, false, None), Ok(None));
}

#[test]
fn non_matching_edge_is_not_cached() {
    let mut mem = GpioMem::open();
    let mut pool = PinPool::new();
    let mut reg = InterruptRegistry::new();
    let pin = pool.take(8).unwrap();
    let mut input = pin.into_input(&mut mem);
    input.set_interrupt(&mut reg, Trigger::RisingEdge).unwrap();
    reg.note_event(8, Level::Low);
    assert_eq!(input.poll_interrupt(&mut reg, false, None), Ok(None));
}

#[test]
fn async_callback_fires_once_per_edge_and_never_after_clear() {
    let mut mem = GpioMem::open();
    let mut pool = PinPool::new();
    let mut reg = InterruptRegistry::new();
    let pin = pool.take(11).unwrap();
    let mut input = pin.into_input(&mut mem);
    input.set_async_interrupt(&mut reg, Trigger::Both).unwrap();
    // the worker consults the registry before each callback invocation
    let mut invocations = 0u32;
    let edges = [Level::High, Level::Low, Level::High, Level::Low, Level::High];
    for level in edges {
        if reg.should_dispatch(11, level) {
            invocations += 1;
        }
    }
    assert_eq!(invocations, 5);
    input.clear_async_interrupt(&mut reg).unwrap();
    for level in [Level::High, Level::Low] {
        assert!(!reg.should_dispatch(11, level));
    }
    // clearing again is idempotent
    input.clear_async_interrupt(&mut reg).unwrap();
}

#[test]
fn async_dispatch_respects_trigger_kind() {
    let mut mem = GpioMem::open();
    let mut pool = PinPool::new();
    let mut reg = InterruptRegistry::new();
    let pin = pool.take(11).unwrap();
    let mut input = pin.into_input(&mut mem);
    input.set_async_interrupt(&mut reg, Trigger::RisingEdge).unwrap();
    assert!(reg.should_dispatch(11, Level::High));
    assert!(!reg.should_dispatch(11, Level::Low));
    // a pin that never registered dispatches nothing
    assert!(!reg.should_dispatch(12, Level::High));
}

#[test]
fn sync_and_async_triggers_exclude_each_other() {
    let mut mem = GpioMem::open();
    let mut pool = PinPool::new();
    let mut reg = InterruptRegistry::new();
    let pin = pool.take(19).unwrap();
    let mut input = pin.into_input(&mut mem);
    input.set_async_interrupt(&mut reg, Trigger::Both).unwrap();
    assert_eq!(reg.trigger_mode(19), TriggerMode::Async(Trigger::Both));
    // configuring a synchronous trigger clears the asynchronous one
    input.set_interrupt(&mut reg, Trigger::RisingEdge).unwrap();
    assert_eq!(reg.trigger_mode(19), TriggerMode::Sync(Trigger::RisingEdge));
    assert!(!reg.should_dispatch(19, Level::High));
    // and the other way round
    input.set_async_interrupt(&mut reg, Trigger::FallingEdge).unwrap();
    assert_eq!(reg.trigger_mode(19), TriggerMode::Async(Trigger::FallingEdge));
    assert_eq!(
        input.poll_interrupt(&mut reg, false, Some(Level::Low)),
        Err(Error::PinNotConfigured)
    );
}

#[test]
fn clear_interrupt_is_idempotent_and_keeps_async() {
    let mut mem = GpioMem::open();
    let mut pool = PinPool::new();
    let mut reg = InterruptRegistry::new();
    let pin = pool.take(3).unwrap();
    let mut input = pin.into_input(&mut mem);
    input.set_interrupt(&mut reg, Trigger::Both).unwrap();
    input.clear_interrupt(&mut reg).unwrap();
    assert_eq!(reg.trigger_mode(3), TriggerMode::NotConfigured);
    input.clear_interrupt(&mut reg).unwrap();
    assert_eq!(reg.trigger_mode(3), TriggerMode::NotConfigured);
    // clearing the synchronous trigger leaves an asynchronous registration
    input.set_async_interrupt(&mut reg, Trigger::Both).unwrap();
    input.clear_interrupt(&mut reg).unwrap();
    assert_eq!(reg.trigger_mode(3), TriggerMode::Async(Trigger::Both));
}

#[test]
fn trigger_matching_table() {
    let cases = [
        (Trigger::Disabled, Level::Low, false),
        (Trigger::Disabled, Level::High, false),
        (Trigger::RisingEdge, Level::Low, false),
        (Trigger::RisingEdge, Level::High, true),
        (Trigger::FallingEdge, Level::Low, true),
        (Trigger::FallingEdge, Level::High, false),
        (Trigger::Both, Level::Low, true),
        (Trigger::Both, Level::High, true),
    ];
    for (trigger, level, expected) in cases {
        assert_eq!(trigger_matches_level(trigger, level), expected);
    }
}
