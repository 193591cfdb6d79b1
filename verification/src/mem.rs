//! The register file: an owned block of 41 32-bit registers with per-register
//! exclusion, and the read-modify-write protocols that pack many pins into
//! each register.

use vstd::prelude::*;

verus! {

use crate::bits::{
    lemma_andnot_bit, lemma_ctrl_field, lemma_div_bound, lemma_field_bounds, lemma_field_of_zero,
    lemma_mod_bound, lemma_mode_field, lemma_or_bit, lemma_same_div_distinct_mod,
};
use crate::pin::MAX;
use crate::{
    lemma_mode_bits_roundtrip, level_of_bit, mode_bits, mode_from_bits, mode_of_bits, mode_to_bits,
    pud_to_bits, Error, IoKind, Level, Mode, PullUpDown,
};

/// The GPIO peripheral owns 41 32-bit registers.
pub const GPIO_MEM_REGISTERS: usize = 41;

/// Word index of the first function-select register (10 pins of 3 bits each).
pub const GPFSEL0: usize = 0;

/// Word index of the first set register (write-1-to-set, self-clearing).
pub const GPSET0: usize = 7;

/// Word index of the first clear register (write-1-to-clear, self-clearing).
pub const GPCLR0: usize = 10;

/// Word index of the first level register (read-only, 1 bit per pin).
pub const GPLEV0: usize = 13;

/// Word index of the pull-resistor control register (2-bit selector).
pub const GPPUD: usize = 37;

/// Word index of the first pull-resistor clock register (1 bit per pin).
pub const GPPUDCLK0: usize = 38;

/// Word index of the function-select register holding `pin`'s mode field.
pub open spec fn fsel_index(pin: int) -> int {
    GPFSEL0 + pin / 10
}

/// Bit position of `pin`'s 3-bit mode field within its register.
pub open spec fn fsel_shift(pin: int) -> u32 {
    ((pin % 10) * 3) as u32
}

/// Word index of the level register holding `pin`'s level bit.
pub open spec fn lev_index(pin: int) -> int {
    GPLEV0 + pin / 32
}

/// Bit position of `pin` within a 32-pins-per-word register.
pub open spec fn bit_shift(pin: int) -> u32 {
    (pin % 32) as u32
}

/// Word index of the pull-resistor clock register covering `pin`.
pub open spec fn pudclk_index(pin: int) -> int {
    GPPUDCLK0 + pin / 32
}

/// The abstract state of the register file: the register words, plus the pull
/// state last latched per pin (the hardware keeps it internal; the model
/// records it).
#[verifier::ext_equal]
pub struct GpioView {
    pub regs: Seq<u32>,
    pub pulls: Seq<PullUpDown>,
}

impl GpioView {
    /// Well-formed register block: the right number of cells, and the
    /// write-only set/clear registers read as zero.
    pub open spec fn wf(self) -> bool {
        &&& self.regs.len() == GPIO_MEM_REGISTERS
        &&& self.pulls.len() == MAX
        &&& forall|i: int| GPSET0 <= i < GPSET0 + 2 ==> #[trigger] self.regs[i] == 0
        &&& forall|i: int| GPCLR0 <= i < GPCLR0 + 2 ==> #[trigger] self.regs[i] == 0
    }

    /// The level bit of `pin`.
    pub open spec fn level_bit(self, pin: int) -> u32 {
        (self.regs[lev_index(pin)] >> bit_shift(pin)) & 1
    }

    /// The level of `pin`.
    pub open spec fn pin_level(self, pin: int) -> Level {
        level_of_bit(self.level_bit(pin))
    }

    /// The 3-bit mode field of `pin`.
    pub open spec fn mode_field(self, pin: int) -> u32 {
        (self.regs[fsel_index(pin)] >> fsel_shift(pin)) & 7
    }

    /// The mode of `pin`.
    pub open spec fn pin_mode(self, pin: int) -> Mode {
        mode_of_bits(self.mode_field(pin))
    }

    /// The pull state last latched for `pin`.
    pub open spec fn pin_pull(self, pin: int) -> PullUpDown {
        self.pulls[pin]
    }

    /// The 2-bit selector currently in the pull control register.
    pub open spec fn ctrl_bits(self) -> u32 {
        self.regs[GPPUD as int] & 3
    }

    /// State after `pin`'s level bit is driven high through the set register.
    pub open spec fn with_high(self, pin: int) -> GpioView {
        GpioView {
            regs: self.regs.update(
                lev_index(pin),
                self.regs[lev_index(pin)] | (1u32 << bit_shift(pin)),
            ),
            pulls: self.pulls,
        }
    }

    /// State after `pin`'s level bit is driven low through the clear register.
    pub open spec fn with_low(self, pin: int) -> GpioView {
        GpioView {
            regs: self.regs.update(
                lev_index(pin),
                self.regs[lev_index(pin)] & !(1u32 << bit_shift(pin)),
            ),
            pulls: self.pulls,
        }
    }

    /// State after the read-modify-write that installs `m` in `pin`'s mode
    /// field.
    pub open spec fn with_mode(self, pin: int, m: Mode) -> GpioView {
        GpioView {
            regs: self.regs.update(
                fsel_index(pin),
                (self.regs[fsel_index(pin)] & !(7u32 << fsel_shift(pin))) | (mode_bits(m)
                    << fsel_shift(pin)),
            ),
            pulls: self.pulls,
        }
    }

    /// State after the full timed pull protocol for `pin`: the selector is
    /// latched for the pin, and both the control register's selector bits and
    /// the clock register end cleared.
    pub open spec fn with_pull(self, pin: int, pud: PullUpDown) -> GpioView {
        GpioView {
            regs: self.regs.update(GPPUD as int, self.regs[GPPUD as int] & !3u32).update(
                pudclk_index(pin),
                0,
            ),
            pulls: self.pulls.update(pin, pud),
        }
    }
}

/// The effect of a raw word store on the register block: stores to the set
/// and clear registers act on the corresponding level register and leave the
/// written cell zero (they are write-only and self-clearing), stores to the
/// read-only level registers are dropped, and every other cell holds what was
/// written.
pub open spec fn spec_write(regs: Seq<u32>, offset: int, value: u32) -> Seq<u32> {
    if GPSET0 <= offset && offset < GPSET0 + 2 {
        regs.update(GPLEV0 + (offset - GPSET0), regs[GPLEV0 + (offset - GPSET0)] | value)
    } else if GPCLR0 <= offset && offset < GPCLR0 + 2 {
        regs.update(GPLEV0 + (offset - GPCLR0), regs[GPLEV0 + (offset - GPCLR0)] & !value)
    } else if GPLEV0 <= offset && offset < GPLEV0 + 2 {
        regs
    } else {
        regs.update(offset, value)
    }
}

/// The register file. On hardware the words live in a volatile memory
/// mapping; here they are an owned block with the same observable semantics,
/// so that every register protocol can be verified against it. One exclusion
/// flag guards each register index — not each pin, because several pins alias
/// one register.
#[derive(Debug)]
pub struct GpioMem {
    regs: Vec<u32>,
    locks: Vec<bool>,
    pulls: Vec<PullUpDown>,
}

impl View for GpioMem {
    type V = GpioView;

    closed spec fn view(&self) -> GpioView {
        GpioView { regs: self.regs@, pulls: self.pulls@ }
    }
}

impl GpioMem {
    /// All per-register exclusion flags are free: no read-modify-write or
    /// pull protocol is in flight.
    pub closed spec fn locks_free(self) -> bool {
        &&& self.locks@.len() == GPIO_MEM_REGISTERS
        &&& forall|i: int| 0 <= i < GPIO_MEM_REGISTERS ==> !(#[trigger] self.locks@[i])
    }

    /// Invariant between operations: a well-formed block, quiescent.
    pub open spec fn inv(self) -> bool {
        &&& self@.wf()
        &&& self.locks_free()
    }

    /// Creates the register file in its power-on state: every register zero,
    /// every exclusion flag free, every pull state off.
    ///
    /// On hardware the block is backed by a memory mapping of the GPIO
    /// peripheral, opened through a low-privilege device path with a
    /// privileged fall-back; that edge lives with the embedding application,
    /// which ranks the failures of the two paths with [`open_error`].
    pub fn open() -> (m: GpioMem)
        ensures
            m.inv(),
            forall|i: int| 0 <= i < GPIO_MEM_REGISTERS ==> #[trigger] m@.regs[i] == 0,
            forall|p: int| 0 <= p < MAX ==> #[trigger] m@.pin_pull(p) == PullUpDown::Off,
            forall|p: int| 0 <= p < MAX ==> #[trigger] m@.pin_mode(p) == Mode::Input,
            forall|p: int| 0 <= p < MAX ==> #[trigger] m@.pin_level(p) == Level::Low,
    {
        let mut regs: Vec<u32> = Vec::new();
        while regs.len() < GPIO_MEM_REGISTERS
            invariant
                regs@.len() <= GPIO_MEM_REGISTERS,
                forall|i: int| 0 <= i < regs@.len() ==> #[trigger] regs@[i] == 0,
            decreases GPIO_MEM_REGISTERS - regs.len(),
        {
            regs.push(0);
        }
        let mut locks: Vec<bool> = Vec::new();
        while locks.len() < GPIO_MEM_REGISTERS
            invariant
                locks@.len() <= GPIO_MEM_REGISTERS,
                forall|i: int| 0 <= i < locks@.len() ==> !(#[trigger] locks@[i]),
            decreases GPIO_MEM_REGISTERS - locks.len(),
        {
            locks.push(false);
        }
        let mut pulls: Vec<PullUpDown> = Vec::new();
        while pulls.len() < MAX
            invariant
                pulls@.len() <= MAX,
                forall|i: int| 0 <= i < pulls@.len() ==> #[trigger] pulls@[i] == PullUpDown::Off,
            decreases MAX - pulls.len(),
        {
            pulls.push(PullUpDown::Off);
        }
        let m = GpioMem { regs, locks, pulls };
        proof {
            assert forall|p: int| 0 <= p < MAX implies #[trigger] m@.pin_mode(p)
                == Mode::Input by {
                lemma_div_bound(p, 10, 6);
                lemma_mod_bound(p, 10);
                lemma_field_of_zero(fsel_shift(p));
            }
            assert forall|p: int| 0 <= p < MAX implies #[trigger] m@.pin_level(p)
                == Level::Low by {
                lemma_div_bound(p, 32, 2);
                lemma_mod_bound(p, 32);
                lemma_field_of_zero(bit_shift(p));
            }
        }
        m
    }

    /// Volatile word load, at the hardware level: no lock is taken; callers
    /// inside a read-modify-write hold the register's exclusion around it.
    fn read_word(&self, offset: usize) -> (w: u32)
        requires
            self@.wf(),
            offset < GPIO_MEM_REGISTERS,
        ensures
            w == self@.regs[offset as int],
    {
        self.regs[offset]
    }

    /// Volatile word store, with the block's store semantics ([`spec_write`]).
    fn write_word(&mut self, offset: usize, value: u32)
        requires
            old(self)@.wf(),
            offset < GPIO_MEM_REGISTERS,
        ensures
            final(self)@.wf(),
            final(self)@.regs == spec_write(old(self)@.regs, offset as int, value),
            final(self)@.pulls == old(self)@.pulls,
            final(self).locks@ == old(self).locks@,
    {
        if GPSET0 <= offset && offset < GPSET0 + 2 {
            let li: usize = GPLEV0 + (offset - GPSET0);
            let cur: u32 = self.regs[li];
            self.regs[li] = cur | value;
        } else if GPCLR0 <= offset && offset < GPCLR0 + 2 {
            let li: usize = GPLEV0 + (offset - GPCLR0);
            let cur: u32 = self.regs[li];
            self.regs[li] = cur & !value;
        } else if GPLEV0 <= offset && offset < GPLEV0 + 2 {
            // level registers are read-only: the store is dropped
        } else {
            self.regs[offset] = value;
        }
        proof {
            assert(self@.regs =~= spec_write(old(self)@.regs, offset as int, value));
        }
    }

    /// Takes the exclusion on one register index. Under contention the
    /// concurrent, hardware-backed build spins on the flag; the sequential
    /// contract demands the flag free, which [`inv`](Self::inv) guarantees
    /// between operations.
    fn lock(&mut self, offset: usize)
        requires
            offset < GPIO_MEM_REGISTERS,
            old(self).locks@.len() == GPIO_MEM_REGISTERS,
            !old(self).locks@[offset as int],
        ensures
            final(self).locks@ == old(self).locks@.update(offset as int, true),
            final(self)@ == old(self)@,
    {
        self.locks[offset] = true;
    }

    /// Releases the exclusion on one register index.
    fn unlock(&mut self, offset: usize)
        requires
            offset < GPIO_MEM_REGISTERS,
            old(self).locks@.len() == GPIO_MEM_REGISTERS,
            old(self).locks@[offset as int],
        ensures
            final(self).locks@ == old(self).locks@.update(offset as int, false),
            final(self)@ == old(self)@,
    {
        self.locks[offset] = false;
    }

    /// Reads one register word.
    pub fn read(&self, offset: usize) -> (w: u32)
        requires
            self.inv(),
            offset < GPIO_MEM_REGISTERS,
        ensures
            w == self@.regs[offset as int],
    {
        self.read_word(offset)
    }

    /// Writes one register word, with the block's store semantics: stores to
    /// the set and clear registers act on the level registers, stores to the
    /// level registers are dropped.
    pub fn write(&mut self, offset: usize, value: u32)
        requires
            old(self).inv(),
            offset < GPIO_MEM_REGISTERS,
        ensures
            final(self).inv(),
            final(self)@.regs == spec_write(old(self)@.regs, offset as int, value),
            final(self)@.pulls == old(self)@.pulls,
    {
        self.write_word(offset, value);
    }

    /// Drives `pin` high: a single store of the pin's bit to its set
    /// register. The write is independently idempotent, so no exclusion is
    /// needed.
    pub(crate) fn set_high(&mut self, pin: u8)
        requires
            old(self).inv(),
            pin < MAX,
        ensures
            final(self).inv(),
            final(self)@ == old(self)@.with_high(pin as int),
    {
        proof {
            lemma_div_bound(pin as int, 32, 2);
        }
        let offset: usize = GPSET0 + (pin as usize) / 32;
        let shift: u32 = (pin % 32) as u32;
        self.write_word(offset, 1u32 << shift);
        proof {
            assert(self@ =~= old(self)@.with_high(pin as int));
        }
    }

    /// Drives `pin` low: a single store of the pin's bit to its clear
    /// register.
    pub(crate) fn set_low(&mut self, pin: u8)
        requires
            old(self).inv(),
            pin < MAX,
        ensures
            final(self).inv(),
            final(self)@ == old(self)@.with_low(pin as int),
    {
        proof {
            lemma_div_bound(pin as int, 32, 2);
        }
        let offset: usize = GPCLR0 + (pin as usize) / 32;
        let shift: u32 = (pin % 32) as u32;
        self.write_word(offset, 1u32 << shift);
        proof {
            assert(self@ =~= old(self)@.with_low(pin as int));
        }
    }

    /// Reads `pin`'s logic level from its level register.
    pub(crate) fn level(&self, pin: u8) -> (l: Level)
        requires
            self.inv(),
            pin < MAX,
        ensures
            l == self@.pin_level(pin as int),
    {
        proof {
            lemma_div_bound(pin as int, 32, 2);
        }
        let offset: usize = GPLEV0 + (pin as usize) / 32;
        let shift: u32 = (pin % 32) as u32;
        let w = self.read_word(offset);
        let bit: u32 = (w >> shift) & 1;
        if bit == 1 {
            Level::High
        } else {
            Level::Low
        }
    }

    /// Reads `pin`'s mode from its function-select register.
    pub(crate) fn mode(&self, pin: u8) -> (m: Mode)
        requires
            self.inv(),
            pin < MAX,
        ensures
            m == self@.pin_mode(pin as int),
    {
        proof {
            lemma_div_bound(pin as int, 10, 6);
        }
        let offset: usize = GPFSEL0 + (pin as usize) / 10;
        let shift: u32 = ((pin % 10) * 3) as u32;
        let w = self.read_word(offset);
        let field: u32 = (w >> shift) & 7;
        proof {
            lemma_field_bounds(w, shift);
        }
        mode_from_bits(field)
    }

    /// Installs `mode` in `pin`'s 3-bit mode field: the register's exclusion
    /// is held around the read-modify-write, so the other nine pins packed
    /// into the same register keep their fields.
    pub(crate) fn set_mode(&mut self, pin: u8, mode: Mode)
        requires
            old(self).inv(),
            pin < MAX,
        ensures
            final(self).inv(),
            final(self)@ == old(self)@.with_mode(pin as int, mode),
    {
        proof {
            lemma_div_bound(pin as int, 10, 6);
        }
        let offset: usize = GPFSEL0 + (pin as usize) / 10;
        let shift: u32 = ((pin % 10) * 3) as u32;
        self.lock(offset);
        let w = self.read_word(offset);
        let bits = mode_to_bits(mode);
        self.write_word(offset, (w & !(7u32 << shift)) | (bits << shift));
        self.unlock(offset);
        proof {
            assert(self@ =~= old(self)@.with_mode(pin as int, mode));
            assert(self.locks@ =~= old(self).locks@);
        }
    }

    /// Latches a pull selection for `pin` through the timed two-register
    /// protocol: write the 2-bit selector into the control register, wait out
    /// the setup time, pulse the pin's bit in its clock register, wait out
    /// the hold time, then clear both registers. Both registers' exclusions
    /// are held for the whole protocol — control first, then clock — because
    /// another pin sharing the same clock register must not interleave. The
    /// two waits (at least 5 µs each, generous for the peripheral's 250–400
    /// MHz internal clock) are real sleeps in the hardware-backed build and
    /// dominate the cost of this operation.
    pub(crate) fn set_pullupdown(&mut self, pin: u8, pud: PullUpDown)
        requires
            old(self).inv(),
            pin < MAX,
        ensures
            final(self).inv(),
            final(self)@ == old(self)@.with_pull(pin as int, pud),
    {
        proof {
            lemma_div_bound(pin as int, 32, 2);
        }
        let clk_offset: usize = GPPUDCLK0 + (pin as usize) / 32;
        let shift: u32 = (pin % 32) as u32;
        self.lock(GPPUD);
        self.lock(clk_offset);
        let w = self.read_word(GPPUD);
        let bits = pud_to_bits(pud);
        self.write_word(GPPUD, (w & !3) | (bits & 3));
        // setup time for the control signal elapses here
        self.write_word(clk_offset, 1u32 << shift);
        // hold time for the control signal elapses here
        self.write_word(GPPUD, w & !3);
        self.write_word(clk_offset, 0);
        self.latch_pull(pin, pud);
        self.unlock(clk_offset);
        self.unlock(GPPUD);
        proof {
            assert(self@.regs =~= old(self)@.with_pull(pin as int, pud).regs);
            assert(self@ =~= old(self)@.with_pull(pin as int, pud));
            assert(self.locks@ =~= old(self).locks@);
        }
    }

    /// Records the pull state the protocol just latched for `pin`.
    fn latch_pull(&mut self, pin: u8, pud: PullUpDown)
        requires
            old(self)@.pulls.len() == MAX,
            pin < MAX,
        ensures
            final(self)@.pulls == old(self)@.pulls.update(pin as int, pud),
            final(self)@.regs == old(self)@.regs,
            final(self).locks@ == old(self).locks@,
    {
        self.pulls[pin as usize] = pud;
    }

    /// Reports the pull state last latched for `pin`. The hardware registers
    /// do not expose it; the model records it as each protocol completes.
    pub fn pull_state(&self, pin: u8) -> (p: PullUpDown)
        requires
            self.inv(),
            pin < MAX,
        ensures
            p == self@.pin_pull(pin as int),
    {
        self.pulls[pin as usize]
    }
}

/// Driving one pin's level high touches exactly that pin: its level reads
/// high, every other pin's level, every mode field and every pull state are
/// unchanged.
pub proof fn lemma_with_high(v: GpioView, pin: int)
    requires
        v.wf(),
        0 <= pin < MAX,
    ensures
        v.with_high(pin).wf(),
        v.with_high(pin).pin_level(pin) == Level::High,
        forall|q: int|
            0 <= q < MAX && q != pin ==> #[trigger] v.with_high(pin).pin_level(q) == v.pin_level(
                q,
            ),
        forall|q: int| 0 <= q < MAX ==> #[trigger] v.with_high(pin).pin_mode(q) == v.pin_mode(q),
        v.with_high(pin).pulls == v.pulls,
        v.with_high(pin).ctrl_bits() == v.ctrl_bits(),
{
    let w = v.with_high(pin);
    let li = lev_index(pin);
    let s = bit_shift(pin);
    lemma_div_bound(pin, 32, 2);
    lemma_mod_bound(pin, 32);
    lemma_or_bit(v.regs[li], s, s);
    assert forall|q: int| 0 <= q < MAX && q != pin implies #[trigger] w.pin_level(q)
        == v.pin_level(q) by {
        lemma_div_bound(q, 32, 2);
        lemma_mod_bound(q, 32);
        if lev_index(q) == li {
            lemma_same_div_distinct_mod(pin, q, 32);
            lemma_or_bit(v.regs[li], s, bit_shift(q));
        }
    }
    assert forall|q: int| 0 <= q < MAX implies #[trigger] w.pin_mode(q) == v.pin_mode(q) by {
        lemma_div_bound(q, 10, 6);
    }
}

/// Driving one pin's level low touches exactly that pin.
pub proof fn lemma_with_low(v: GpioView, pin: int)
    requires
        v.wf(),
        0 <= pin < MAX,
    ensures
        v.with_low(pin).wf(),
        v.with_low(pin).pin_level(pin) == Level::Low,
        forall|q: int|
            0 <= q < MAX && q != pin ==> #[trigger] v.with_low(pin).pin_level(q) == v.pin_level(q),
        forall|q: int| 0 <= q < MAX ==> #[trigger] v.with_low(pin).pin_mode(q) == v.pin_mode(q),
        v.with_low(pin).pulls == v.pulls,
        v.with_low(pin).ctrl_bits() == v.ctrl_bits(),
{
    let w = v.with_low(pin);
    let li = lev_index(pin);
    let s = bit_shift(pin);
    lemma_div_bound(pin, 32, 2);
    lemma_mod_bound(pin, 32);
    lemma_andnot_bit(v.regs[li], s, s);
    assert forall|q: int| 0 <= q < MAX && q != pin implies #[trigger] w.pin_level(q)
        == v.pin_level(q) by {
        lemma_div_bound(q, 32, 2);
        lemma_mod_bound(q, 32);
        if lev_index(q) == li {
            lemma_same_div_distinct_mod(pin, q, 32);
            lemma_andnot_bit(v.regs[li], s, bit_shift(q));
        }
    }
    assert forall|q: int| 0 <= q < MAX implies #[trigger] w.pin_mode(q) == v.pin_mode(q) by {
        lemma_div_bound(q, 10, 6);
    }
}

/// The mode read-modify-write installs exactly the asked-for mode on exactly
/// the asked-for pin: the other nine pins packed into the same register, all
/// levels and all pull states are unchanged.
pub proof fn lemma_with_mode(v: GpioView, pin: int, m: Mode)
    requires
        v.wf(),
        0 <= pin < MAX,
    ensures
        v.with_mode(pin, m).wf(),
        v.with_mode(pin, m).pin_mode(pin) == m,
        forall|q: int|
            0 <= q < MAX && q != pin ==> #[trigger] v.with_mode(pin, m).pin_mode(q) == v.pin_mode(
                q,
            ),
        forall|q: int|
            0 <= q < MAX ==> #[trigger] v.with_mode(pin, m).pin_level(q) == v.pin_level(q),
        v.with_mode(pin, m).pulls == v.pulls,
        v.with_mode(pin, m).ctrl_bits() == v.ctrl_bits(),
{
    let w = v.with_mode(pin, m);
    let fi = fsel_index(pin);
    let s = fsel_shift(pin);
    lemma_div_bound(pin, 10, 6);
    lemma_mod_bound(pin, 10);
    assert(mode_bits(m) < 8);
    lemma_mode_field(v.regs[fi], s, s, mode_bits(m));
    lemma_mode_bits_roundtrip(m);
    assert forall|q: int| 0 <= q < MAX && q != pin implies #[trigger] w.pin_mode(q)
        == v.pin_mode(q) by {
        lemma_div_bound(q, 10, 6);
        lemma_mod_bound(q, 10);
        if fsel_index(q) == fi {
            lemma_same_div_distinct_mod(pin, q, 10);
            lemma_mode_field(v.regs[fi], s, fsel_shift(q), mode_bits(m));
        }
    }
    assert forall|q: int| 0 <= q < MAX implies #[trigger] w.pin_level(q) == v.pin_level(q) by {
        lemma_div_bound(q, 32, 2);
    }
}

/// The pull protocol latches exactly the asked-for selection on exactly the
/// asked-for pin, and completes with the control register's selector bits and
/// the clock register cleared; no mode field and no level bit moves.
pub proof fn lemma_with_pull(v: GpioView, pin: int, pud: PullUpDown)
    requires
        v.wf(),
        0 <= pin < MAX,
    ensures
        v.with_pull(pin, pud).wf(),
        v.with_pull(pin, pud).pin_pull(pin) == pud,
        forall|q: int|
            0 <= q < MAX && q != pin ==> #[trigger] v.with_pull(pin, pud).pin_pull(q) == v.pin_pull(
                q,
            ),
        forall|q: int|
            0 <= q < MAX ==> #[trigger] v.with_pull(pin, pud).pin_mode(q) == v.pin_mode(q),
        forall|q: int|
            0 <= q < MAX ==> #[trigger] v.with_pull(pin, pud).pin_level(q) == v.pin_level(q),
        v.with_pull(pin, pud).ctrl_bits() == 0,
        v.with_pull(pin, pud).regs[pudclk_index(pin)] == 0,
{
    let w = v.with_pull(pin, pud);
    lemma_div_bound(pin, 32, 2);
    lemma_ctrl_field(v.regs[GPPUD as int], 0);
    assert forall|q: int| 0 <= q < MAX implies #[trigger] w.pin_mode(q) == v.pin_mode(q) by {
        lemma_div_bound(q, 10, 6);
    }
    assert forall|q: int| 0 <= q < MAX implies #[trigger] w.pin_level(q) == v.pin_level(q) by {
        lemma_div_bound(q, 32, 2);
    }
}

/// Law: mode writes on distinct pins do not disturb one another, also where
/// the two pins' fields are packed into the same function-select register —
/// after setting `m1` on `p` and then `m2` on `q`, each pin holds the mode
/// last written to it.
pub proof fn lemma_mode_isolation(v: GpioView, p: int, q: int, m1: Mode, m2: Mode)
    requires
        v.wf(),
        0 <= p < MAX,
        0 <= q < MAX,
        p != q,
    ensures
        v.with_mode(p, m1).with_mode(q, m2).pin_mode(p) == m1,
        v.with_mode(p, m1).with_mode(q, m2).pin_mode(q) == m2,
{
    lemma_with_mode(v, p, m1);
    lemma_with_mode(v.with_mode(p, m1), q, m2);
}

/// Law: a level written through the set or clear register is the level read
/// back, for every pin.
pub proof fn lemma_level_roundtrip(v: GpioView, pin: int)
    requires
        v.wf(),
        0 <= pin < MAX,
    ensures
        v.with_high(pin).pin_level(pin) == Level::High,
        v.with_low(pin).pin_level(pin) == Level::Low,
{
    lemma_with_high(v, pin);
    lemma_with_low(v, pin);
}

/// Law: pull selections on one pin overwrite one another — latching pull-up
/// and then pull-down, with no intervening off, leaves the pin pulled down —
/// and the protocol never leaves a selector in the control register.
pub proof fn lemma_pull_last_wins(v: GpioView, pin: int)
    requires
        v.wf(),
        0 <= pin < MAX,
    ensures
        v.with_pull(pin, PullUpDown::PullUp).with_pull(pin, PullUpDown::PullDown).pin_pull(pin)
            == PullUpDown::PullDown,
        v.with_pull(pin, PullUpDown::PullUp).with_pull(pin, PullUpDown::PullDown).ctrl_bits() == 0,
{
    lemma_with_pull(v, pin, PullUpDown::PullUp);
    lemma_with_pull(v.with_pull(pin, PullUpDown::PullUp), pin, PullUpDown::PullDown);
}

/// Which failure the register-file open surfaces when the low-privilege
/// device path failed with `primary` and the privileged fall-back with
/// `fallback`: a permission failure or a model-identification failure of the
/// fall-back is more specific, anything else reports the first attempt.
pub open spec fn open_error_choice(primary: Error, fallback: Error) -> Error {
    match fallback {
        Error::Io(IoKind::PermissionDenied) => Error::PermissionDenied,
        Error::UnknownModel => Error::UnknownModel,
        _ => primary,
    }
}

/// Ranks the failures of the register file's two open paths, most specific
/// first.
pub fn open_error(primary: Error, fallback: Error) -> (e: Error)
    ensures
        e == open_error_choice(primary, fallback),
{
    match fallback {
        Error::Io(IoKind::PermissionDenied) => Error::PermissionDenied,
        Error::UnknownModel => Error::UnknownModel,
        _ => primary,
    }
}

} // verus!
