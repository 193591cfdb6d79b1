//! Hardware abstraction layer for the GPIO register block of a memory-mapped
//! SoC peripheral.
//!
//! Up to 54 pins share a block of 41 32-bit registers: a pin's mode occupies a
//! 3-bit field (10 pins per register), its level one bit (32 pins per
//! register), and its pull resistor is latched through a timed two-register
//! protocol.  The crate models that register block as an owned block of words
//! ([`mem::GpioMem`]), proves that every read-modify-write touches exactly the
//! bits of the pin it is about, and layers on top of it a single-owner pin
//! pool ([`pool::PinPool`]), consuming typestate handles ([`pin::Pin`],
//! [`pin::InputPin`], [`pin::OutputPin`], [`pin::AltPin`]) that restore the
//! hardware state they changed, and an interrupt coordinator
//! ([`interrupt::InterruptRegistry`]) that keeps at most one trigger mode —
//! synchronous or asynchronous — active per pin.
//!
//! The volatile memory mapping, the blocking wait primitive and the callback
//! worker threads live with the embedding application; this crate holds every
//! decision those edges act on.

use vstd::prelude::*;

pub mod bits;
pub mod interrupt;
pub mod mem;
pub mod pin;
pub mod pool;

verus! {

/// Logic level of a pin.
#[derive(Clone, Copy, Debug, PartialEq, Eq, Structural)]
pub enum Level {
    Low,
    High,
}

/// Function assigned to a pin: input, output, or one of six alternate
/// peripheral functions.
#[derive(Clone, Copy, Debug, PartialEq, Eq, Structural)]
pub enum Mode {
    Input,
    Output,
    Alt0,
    Alt1,
    Alt2,
    Alt3,
    Alt4,
    Alt5,
}

/// Built-in pull resistor selection.
#[derive(Clone, Copy, Debug, PartialEq, Eq, Structural)]
pub enum PullUpDown {
    Off,
    PullDown,
    PullUp,
}

/// Edge kinds an interrupt trigger matches against.
#[derive(Clone, Copy, Debug, PartialEq, Eq, Structural)]
pub enum Trigger {
    Disabled,
    RisingEdge,
    FallingEdge,
    Both,
}

/// The shape of an operating-system error, as far as the error classification
/// of the register-file open path needs to tell them apart.
#[derive(Clone, Copy, Debug, PartialEq, Eq, Structural)]
pub enum IoKind {
    PermissionDenied,
    NotFound,
    Other,
}

/// Errors surfaced by the library.
#[derive(Clone, Copy, Debug, PartialEq, Eq, Structural)]
pub enum Error {
    /// A device open lacked the needed privilege.
    PermissionDenied,
    /// SoC identification failed, so no register offset is available.
    UnknownModel,
    /// An underlying device open or mapping failure.
    Io(IoKind),
    /// The pin number is already checked out.
    PinInUse,
    /// An interrupt operation was asked of a pin without the needed trigger
    /// mode set.
    PinNotConfigured,
}

/// The 3-bit function-select encoding of a mode.
pub open spec fn mode_bits(m: Mode) -> u32 {
    match m {
        Mode::Input => 0,
        Mode::Output => 1,
        Mode::Alt0 => 4,
        Mode::Alt1 => 5,
        Mode::Alt2 => 6,
        Mode::Alt3 => 7,
        Mode::Alt4 => 3,
        Mode::Alt5 => 2,
    }
}

/// The mode a 3-bit function-select field encodes.
pub open spec fn mode_of_bits(b: u32) -> Mode {
    if b == 0 {
        Mode::Input
    } else if b == 1 {
        Mode::Output
    } else if b == 2 {
        Mode::Alt5
    } else if b == 3 {
        Mode::Alt4
    } else if b == 4 {
        Mode::Alt0
    } else if b == 5 {
        Mode::Alt1
    } else if b == 6 {
        Mode::Alt2
    } else {
        Mode::Alt3
    }
}

pub proof fn lemma_mode_bits_roundtrip(m: Mode)
    ensures
        mode_of_bits(mode_bits(m)) == m,
{
}

/// Encodes a mode into its 3-bit function-select field.
pub fn mode_to_bits(m: Mode) -> (b: u32)
    ensures
        b == mode_bits(m),
        b < 8,
{
    match m {
        Mode::Input => 0,
        Mode::Output => 1,
        Mode::Alt0 => 4,
        Mode::Alt1 => 5,
        Mode::Alt2 => 6,
        Mode::Alt3 => 7,
        Mode::Alt4 => 3,
        Mode::Alt5 => 2,
    }
}

/// Decodes a 3-bit function-select field.
pub fn mode_from_bits(b: u32) -> (m: Mode)
    requires
        b < 8,
    ensures
        m == mode_of_bits(b),
{
    if b == 0 {
        Mode::Input
    } else if b == 1 {
        Mode::Output
    } else if b == 2 {
        Mode::Alt5
    } else if b == 3 {
        Mode::Alt4
    } else if b == 4 {
        Mode::Alt0
    } else if b == 5 {
        Mode::Alt1
    } else if b == 6 {
        Mode::Alt2
    } else {
        Mode::Alt3
    }
}

/// The 2-bit selector the pull-resistor control register takes.
pub open spec fn pud_bits(p: PullUpDown) -> u32 {
    match p {
        PullUpDown::Off => 0,
        PullUpDown::PullDown => 1,
        PullUpDown::PullUp => 2,
    }
}

/// Encodes a pull selection into its 2-bit control value.
pub fn pud_to_bits(p: PullUpDown) -> (b: u32)
    ensures
        b == pud_bits(p),
        b < 4,
{
    match p {
        PullUpDown::Off => 0,
        PullUpDown::PullDown => 1,
        PullUpDown::PullUp => 2,
    }
}

/// The level a single register bit encodes.
pub open spec fn level_of_bit(b: u32) -> Level {
    if b == 1 {
        Level::High
    } else {
        Level::Low
    }
}

/// Whether an edge to the given level satisfies a trigger.
pub open spec fn trigger_matches(t: Trigger, l: Level) -> bool {
    match t {
        Trigger::Disabled => false,
        Trigger::RisingEdge => l == Level::High,
        Trigger::FallingEdge => l == Level::Low,
        Trigger::Both => true,
    }
}

/// Runtime test of [`trigger_matches`].
pub fn trigger_matches_level(t: Trigger, l: Level) -> (b: bool)
    ensures
        b == trigger_matches(t, l),
{
    match t {
        Trigger::Disabled => false,
        Trigger::RisingEdge => l == Level::High,
        Trigger::FallingEdge => l == Level::Low,
        Trigger::Both => true,
    }
}

} // verus!
