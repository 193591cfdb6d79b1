//! Tests of the register file: initial state, store semantics, mode field
//! isolation, and the level round trip.

use gpio_hal::mem::{open_error, GpioMem, GPCLR0, GPIO_MEM_REGISTERS, GPLEV0, GPPUD, GPPUDCLK0, GPSET0};
use gpio_hal::pin::MAX;
use gpio_hal::pool::PinPool;
use gpio_hal::{mode_from_bits, mode_to_bits, Error, IoKind, Level, Mode, PullUpDown};

#[test]
fn open_initial_state() {
    let mem = GpioMem::open();
    for i in 0..GPIO_MEM_REGISTERS {
        assert_eq!(mem.read(i), 0);
    }
    let mut pool = PinPool::new();
    for n in 0..MAX as u8 {
        let pin = pool.take(n).unwrap();
        assert_eq!(pin.mode(&mem), Mode::Input);
        assert_eq!(pin.read(&mem), Level::Low);
        assert_eq!(mem.pull_state(n), PullUpDown::Off);
        pin.release(&mut pool);
    }
}

#[test]
fn raw_store_set_clear_semantics() {
    let mut mem = GpioMem::open();
    // a store to a set register raises the bit in the matching level register
    mem.write(GPSET0, 1 << 5);
    assert_eq!(mem.read(GPLEV0), 1 << 5);
    // the set register itself stays zero: it is write-only and self-clearing
    assert_eq!(mem.read(GPSET0), 0);
    // a store straight to the read-only level register is dropped
    mem.write(GPLEV0, 0xffff_ffff);
    assert_eq!(mem.read(GPLEV0), 1 << 5);
    // a store to the clear register lowers exactly the written bits
    mem.write(GPSET0 + 1, 0b11);
    mem.write(GPCLR0 + 1, 0b01);
    assert_eq!(mem.read(GPLEV0 + 1), 0b10);
}

#[test]
fn level_round_trip_every_pin() {
    // write(High) then read() gives High, write(Low) then read() gives Low,
    // for every pin number
    let mut mem = GpioMem::open();
    let mut pool = PinPool::new();
    for n in 0..MAX as u8 {
        let pin = pool.take(n).unwrap();
        let out = pin.into_output(&mut mem);
        out.write(&mut mem, Level::High);
        assert_eq!(out.read(&mem), Level::High);
        assert!(out.is_high(&mem));
        out.write(&mut mem, Level::Low);
        assert_eq!(out.read(&mem), Level::Low);
        assert!(out.is_low(&mem));
        out.release(&mut mem, &mut pool);
    }
}

#[test]
fn mode_writes_on_shared_register_stay_consistent() {
    // pins 2 and 3 share function-select register 0; many alternating mode
    // writes leave each pin holding exactly the mode last written to it
    let mut mem = GpioMem::open();
    let mut pool = PinPool::new();
    let p = pool.take(2).unwrap();
    let q = pool.take(3).unwrap();
    let mut alt_p = p.into_alt(Mode::Alt0, &mut mem);
    let mut alt_q = q.into_alt(Mode::Alt1, &mut mem);
    for round in 0..1000 {
        alt_p.release(&mut mem, &mut pool);
        let p = pool.take(2).unwrap();
        alt_p = p.into_alt(if round % 2 == 0 { Mode::Alt2 } else { Mode::Alt0 }, &mut mem);
        alt_q.release(&mut mem, &mut pool);
        let q = pool.take(3).unwrap();
        alt_q = q.into_alt(if round % 2 == 0 { Mode::Alt3 } else { Mode::Alt1 }, &mut mem);
    }
    alt_p.set_reset_on_drop(false);
    alt_q.set_reset_on_drop(false);
    alt_p.release(&mut mem, &mut pool);
    alt_q.release(&mut mem, &mut pool);
    let p = pool.take(2).unwrap();
    let q = pool.take(3).unwrap();
    assert_eq!(p.mode(&mem), Mode::Alt0);
    assert_eq!(q.mode(&mem), Mode::Alt1);
}

#[test]
fn mode_write_keeps_all_ten_neighbour_fields() {
    // fill function-select register 0 with distinct modes, then rewrite one
    // field and check the other nine
    let mut mem = GpioMem::open();
    let mut pool = PinPool::new();
    let modes = [
        Mode::Alt0,
        Mode::Alt1,
        Mode::Alt2,
        Mode::Alt3,
        Mode::Alt4,
        Mode::Alt5,
        Mode::Output,
        Mode::Alt0,
        Mode::Alt1,
        Mode::Alt2,
    ];
    for n in 0..10u8 {
        let pin = pool.take(n).unwrap();
        let mut alt = pin.into_alt(modes[n as usize], &mut mem);
        alt.set_reset_on_drop(false);
        alt.release(&mut mem, &mut pool);
    }
    let pin = pool.take(4).unwrap();
    let mut alt = pin.into_alt(Mode::Output, &mut mem);
    alt.set_reset_on_drop(false);
    alt.release(&mut mem, &mut pool);
    for n in 0..10u8 {
        let pin = pool.take(n).unwrap();
        let expected = if n == 4 { Mode::Output } else { modes[n as usize] };
        assert_eq!(pin.mode(&mem), expected);
        pin.release(&mut pool);
    }
}

#[test]
fn pull_protocol_clears_control_register() {
    // setting pull-up then pull-down with no intervening off leaves the pin
    // pulled down, and the control register's selector bits end cleared
    let mut mem = GpioMem::open();
    let mut pool = PinPool::new();
    let pin = pool.take(17).unwrap();
    let mut input = pin.into_input_pullup(&mut mem);
    assert_eq!(mem.pull_state(17), PullUpDown::PullUp);
    input.set_reset_on_drop(false);
    input.release(&mut mem, &mut pool);
    let pin = pool.take(17).unwrap();
    let input = pin.into_input_pulldown(&mut mem);
    assert_eq!(mem.pull_state(17), PullUpDown::PullDown);
    assert_eq!(mem.read(GPPUD) & 0b11, 0);
    assert_eq!(mem.read(GPPUDCLK0), 0);
    input.release(&mut mem, &mut pool);
    // release with restore enabled drives the pull off again
    assert_eq!(mem.pull_state(17), PullUpDown::Off);
}

#[test]
fn mode_bit_encoding_round_trip() {
    let table = [
        (Mode::Input, 0b000),
        (Mode::Output, 0b001),
        (Mode::Alt0, 0b100),
        (Mode::Alt1, 0b101),
        (Mode::Alt2, 0b110),
        (Mode::Alt3, 0b111),
        (Mode::Alt4, 0b011),
        (Mode::Alt5, 0b010),
    ];
    for (mode, bits) in table {
        assert_eq!(mode_to_bits(mode), bits);
        assert_eq!(mode_from_bits(bits), mode);
    }
}

#[test]
fn open_error_priority_order() {
    let primary = Error::Io(IoKind::NotFound);
    // a permission failure of the fall-back is the most specific
    assert_eq!(
        open_error(primary, Error::Io(IoKind::PermissionDenied)),
        Error::PermissionDenied
    );
    // an unidentified model comes next
    assert_eq!(open_error(primary, Error::UnknownModel), Error::UnknownModel);
    // anything else surfaces the first attempt's failure
    assert_eq!(open_error(primary, Error::Io(IoKind::Other)), primary);
    assert_eq!(
        open_error(Error::PermissionDenied, Error::Io(IoKind::Other)),
        Error::PermissionDenied
    );
}
