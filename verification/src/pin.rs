//! Pin typestate handles: an unconfigured [`Pin`] consumes itself into a
//! configured [`InputPin`], [`OutputPin`] or [`AltPin`], which remembers what
//! it changed and restores it on release.

use vstd::prelude::*;

verus! {

use crate::interrupt::{
    spec_clear_async, spec_clear_sync, spec_poll_result, InterruptRegistry, TriggerMode,
};
use crate::mem::{
    lemma_with_mode, lemma_with_pull, GpioMem, GpioView,
};
use crate::pool::PinPool;
use crate::{trigger_matches_level, Error, Level, Mode, PullUpDown, Trigger};

/// Maximum number of GPIO pins the register block addresses. The number of
/// pins a given board exposes depends on the model.
pub const MAX: usize = 54;

/// The register state after a mode-transition constructor targeting `target`:
/// the mode is written only if it differs from the current one.
pub open spec fn spec_configure(v: GpioView, pin: int, target: Mode) -> GpioView {
    if v.pin_mode(pin) == target {
        v
    } else {
        v.with_mode(pin, target)
    }
}

/// What a mode-transition constructor targeting `target` records for
/// restoration: nothing if no change was needed, else the mode found.
pub open spec fn spec_prev_mode(v: GpioView, pin: int, target: Mode) -> Option<Mode> {
    if v.pin_mode(pin) == target {
        None
    } else {
        Some(v.pin_mode(pin))
    }
}

/// The register state after configuring `pin` as an input with pull choice
/// `pud`: the conditional mode write, then the full pull protocol.
pub open spec fn spec_input_configure(v: GpioView, pin: int, pud: PullUpDown) -> GpioView {
    spec_configure(v, pin, Mode::Input).with_pull(pin, pud)
}

/// The register state after a configured handle is released: nothing if
/// restore-on-release is disabled; otherwise the recorded previous mode is
/// written back if one was recorded, and a pull the handle applied is
/// cleared.
pub open spec fn spec_release(
    v: GpioView,
    pin: int,
    prev: Option<Mode>,
    pud: PullUpDown,
    reset: bool,
) -> GpioView {
    if !reset {
        v
    } else {
        let restored = match prev {
            Some(m) => v.with_mode(pin, m),
            None => v,
        };
        if pud != PullUpDown::Off {
            restored.with_pull(pin, PullUpDown::Off)
        } else {
            restored
        }
    }
}

/// The register state after writing a level to `pin`.
pub open spec fn spec_write_level(v: GpioView, pin: int, level: Level) -> GpioView {
    match level {
        Level::Low => v.with_low(pin),
        Level::High => v.with_high(pin),
    }
}

/// Unconfigured GPIO pin: the single-owner handle the pool hands out.
#[derive(Debug)]
pub struct Pin {
    pin: u8,
}

impl Pin {
    /// The pin number as an identity key.
    pub closed spec fn pin_id(self) -> int {
        self.pin as int
    }

    /// The number is a valid pin.
    pub open spec fn wf(self) -> bool {
        0 <= self.pin_id() < MAX
    }

    pub(crate) fn new(pin: u8) -> (p: Pin)
        requires
            pin < MAX,
        ensures
            p.wf(),
            p.pin_id() == pin as int,
    {
        Pin { pin }
    }

    /// Returns the GPIO pin number.
    ///
    /// Pins are addressed by their BCM numbers, rather than their physical
    /// location.
    pub fn pin(&self) -> (n: u8)
        ensures
            n as int == self.pin_id(),
    {
        self.pin
    }

    /// Returns the current GPIO pin mode.
    pub fn mode(&self, mem: &GpioMem) -> (m: Mode)
        requires
            mem.inv(),
            self.wf(),
        ensures
            m == mem@.pin_mode(self.pin_id()),
    {
        mem.mode(self.pin)
    }

    /// Reads the pin's current logic level.
    pub fn read(&self, mem: &GpioMem) -> (l: Level)
        requires
            mem.inv(),
            self.wf(),
        ensures
            l == mem@.pin_level(self.pin_id()),
    {
        mem.level(self.pin)
    }

    pub(crate) fn set_mode(&self, mem: &mut GpioMem, mode: Mode)
        requires
            old(mem).inv(),
            self.wf(),
        ensures
            final(mem).inv(),
            final(mem)@ == old(mem)@.with_mode(self.pin_id(), mode),
    {
        mem.set_mode(self.pin, mode);
    }

    /// Configures the built-in pull-up/pull-down resistors.
    pub(crate) fn set_pullupdown(&self, mem: &mut GpioMem, pud: PullUpDown)
        requires
            old(mem).inv(),
            self.wf(),
        ensures
            final(mem).inv(),
            final(mem)@ == old(mem)@.with_pull(self.pin_id(), pud),
    {
        mem.set_pullupdown(self.pin, pud);
    }

    pub(crate) fn set_low(&self, mem: &mut GpioMem)
        requires
            old(mem).inv(),
            self.wf(),
        ensures
            final(mem).inv(),
            final(mem)@ == old(mem)@.with_low(self.pin_id()),
    {
        mem.set_low(self.pin);
    }

    pub(crate) fn set_high(&self, mem: &mut GpioMem)
        requires
            old(mem).inv(),
            self.wf(),
        ensures
            final(mem).inv(),
            final(mem)@ == old(mem)@.with_high(self.pin_id()),
    {
        mem.set_high(self.pin);
    }

    pub(crate) fn write(&self, mem: &mut GpioMem, level: Level)
        requires
            old(mem).inv(),
            self.wf(),
        ensures
            final(mem).inv(),
            final(mem)@ == spec_write_level(old(mem)@, self.pin_id(), level),
    {
        match level {
            Level::Low => self.set_low(mem),
            Level::High => self.set_high(mem),
        }
    }

    /// Returns the pin number to the pool without configuring anything: an
    /// unconfigured handle changed no hardware state, so there is nothing to
    /// restore.
    pub fn release(self, pool: &mut PinPool)
        requires
            old(pool).inv(),
            self.wf(),
            old(pool).is_taken(self.pin_id()),
        ensures
            final(pool).inv(),
            final(pool)@ == old(pool)@.update(self.pin_id(), false),
    {
        pool.release(self.pin);
    }

    /// Consumes the `Pin`, returns an [`InputPin`], sets its mode to
    /// [`Mode::Input`], and disables the pin's built-in pull-up/pull-down
    /// resistors.
    pub fn into_input(self, mem: &mut GpioMem) -> (p: InputPin)
        requires
            old(mem).inv(),
            self.wf(),
        ensures
            final(mem).inv(),
            final(mem)@ == spec_input_configure(old(mem)@, self.pin_id(), PullUpDown::Off),
            p.wf(),
            p.pin_id() == self.pin_id(),
            p.prev_mode_spec() == spec_prev_mode(old(mem)@, self.pin_id(), Mode::Input),
            p.pud_mode_spec() == PullUpDown::Off,
            p.reset_on_drop_spec(),
            !p.async_registered(),
    {
        InputPin::new(self, PullUpDown::Off, mem)
    }

    /// Consumes the `Pin`, returns an [`InputPin`], sets its mode to
    /// [`Mode::Input`], and enables the pin's built-in pull-down resistor.
    ///
    /// The pull-down resistor is disabled again when the handle is released
    /// with restore-on-release left enabled (the default).
    pub fn into_input_pulldown(self, mem: &mut GpioMem) -> (p: InputPin)
        requires
            old(mem).inv(),
            self.wf(),
        ensures
            final(mem).inv(),
            final(mem)@ == spec_input_configure(old(mem)@, self.pin_id(), PullUpDown::PullDown),
            p.wf(),
            p.pin_id() == self.pin_id(),
            p.prev_mode_spec() == spec_prev_mode(old(mem)@, self.pin_id(), Mode::Input),
            p.pud_mode_spec() == PullUpDown::PullDown,
            p.reset_on_drop_spec(),
            !p.async_registered(),
    {
        InputPin::new(self, PullUpDown::PullDown, mem)
    }

    /// Consumes the `Pin`, returns an [`InputPin`], sets its mode to
    /// [`Mode::Input`], and enables the pin's built-in pull-up resistor.
    ///
    /// The pull-up resistor is disabled again when the handle is released
    /// with restore-on-release left enabled (the default).
    pub fn into_input_pullup(self, mem: &mut GpioMem) -> (p: InputPin)
        requires
            old(mem).inv(),
            self.wf(),
        ensures
            final(mem).inv(),
            final(mem)@ == spec_input_configure(old(mem)@, self.pin_id(), PullUpDown::PullUp),
            p.wf(),
            p.pin_id() == self.pin_id(),
            p.prev_mode_spec() == spec_prev_mode(old(mem)@, self.pin_id(), Mode::Input),
            p.pud_mode_spec() == PullUpDown::PullUp,
            p.reset_on_drop_spec(),
            !p.async_registered(),
    {
        InputPin::new(self, PullUpDown::PullUp, mem)
    }

    /// Consumes the pin, returns an [`OutputPin`] and sets its mode to
    /// [`Mode::Output`].
    pub fn into_output(self, mem: &mut GpioMem) -> (p: OutputPin)
        requires
            old(mem).inv(),
            self.wf(),
        ensures
            final(mem).inv(),
            final(mem)@ == spec_configure(old(mem)@, self.pin_id(), Mode::Output),
            p.wf(),
            p.pin_id() == self.pin_id(),
            p.prev_mode_spec() == spec_prev_mode(old(mem)@, self.pin_id(), Mode::Output),
            p.pud_mode_spec() == PullUpDown::Off,
            p.reset_on_drop_spec(),
    {
        OutputPin::new(self, mem)
    }

    /// Consumes the pin, returns an [`AltPin`] and sets its mode to the given
    /// alternate function.
    pub fn into_alt(self, mode: Mode, mem: &mut GpioMem) -> (p: AltPin)
        requires
            old(mem).inv(),
            self.wf(),
        ensures
            final(mem).inv(),
            final(mem)@ == spec_configure(old(mem)@, self.pin_id(), mode),
            p.wf(),
            p.pin_id() == self.pin_id(),
            p.prev_mode_spec() == spec_prev_mode(old(mem)@, self.pin_id(), mode),
            p.pud_mode_spec() == PullUpDown::Off,
            p.reset_on_drop_spec(),
    {
        AltPin::new(self, mode, mem)
    }
}

/// GPIO pin configured as input.
#[derive(Debug)]
pub struct InputPin {
    pin: Pin,
    prev_mode: Option<Mode>,
    async_active: bool,
    reset_on_drop: bool,
    pud_mode: PullUpDown,
}

impl InputPin {
    pub closed spec fn pin_id(self) -> int {
        self.pin.pin_id()
    }

    pub closed spec fn prev_mode_spec(self) -> Option<Mode> {
        self.prev_mode
    }

    pub closed spec fn pud_mode_spec(self) -> PullUpDown {
        self.pud_mode
    }

    pub closed spec fn reset_on_drop_spec(self) -> bool {
        self.reset_on_drop
    }

    /// Whether this handle has an asynchronous trigger registered.
    pub closed spec fn async_registered(self) -> bool {
        self.async_active
    }

    pub open spec fn wf(self) -> bool {
        0 <= self.pin_id() < MAX
    }

    /// Reads the current mode, writes [`Mode::Input`] only if it differs
    /// (recording the mode found for restoration), then applies the pull
    /// choice.
    pub(crate) fn new(pin: Pin, pud_mode: PullUpDown, mem: &mut GpioMem) -> (p: InputPin)
        requires
            old(mem).inv(),
            pin.wf(),
        ensures
            final(mem).inv(),
            final(mem)@ == spec_input_configure(old(mem)@, pin.pin_id(), pud_mode),
            p.wf(),
            p.pin_id() == pin.pin_id(),
            p.prev_mode_spec() == spec_prev_mode(old(mem)@, pin.pin_id(), Mode::Input),
            p.pud_mode_spec() == pud_mode,
            p.reset_on_drop_spec(),
            !p.async_registered(),
    {
        let prev = pin.mode(mem);
        let prev_mode: Option<Mode> = if prev == Mode::Input {
            None
        } else {
            pin.set_mode(mem, Mode::Input);
            Some(prev)
        };
        pin.set_pullupdown(mem, pud_mode);
        InputPin { pin, prev_mode, async_active: false, reset_on_drop: true, pud_mode }
    }

    /// Returns the GPIO pin number.
    pub fn pin(&self) -> (n: u8)
        ensures
            n as int == self.pin_id(),
    {
        self.pin.pin()
    }

    /// Reads the pin's current logic level.
    pub fn read(&self, mem: &GpioMem) -> (l: Level)
        requires
            mem.inv(),
            self.wf(),
        ensures
            l == mem@.pin_level(self.pin_id()),
    {
        self.pin.read(mem)
    }

    /// Returns `true` if the pin's logic level is [`Level::Low`].
    pub fn is_low(&self, mem: &GpioMem) -> (b: bool)
        requires
            mem.inv(),
            self.wf(),
        ensures
            b == (mem@.pin_level(self.pin_id()) == Level::Low),
    {
        self.pin.read(mem) == Level::Low
    }

    /// Returns `true` if the pin's logic level is [`Level::High`].
    pub fn is_high(&self, mem: &GpioMem) -> (b: bool)
        requires
            mem.inv(),
            self.wf(),
        ensures
            b == (mem@.pin_level(self.pin_id()) == Level::High),
    {
        self.pin.read(mem) == Level::High
    }

    /// Returns the value of `reset_on_drop`.
    pub fn reset_on_drop(&self) -> (b: bool)
        ensures
            b == self.reset_on_drop_spec(),
    {
        self.reset_on_drop
    }

    /// When enabled (the default), releasing the handle restores the pin's
    /// previous mode and disables a pull resistor the handle applied.
    pub fn set_reset_on_drop(&mut self, reset_on_drop: bool)
        ensures
            final(self).reset_on_drop_spec() == reset_on_drop,
            final(self).pin_id() == old(self).pin_id(),
            final(self).prev_mode_spec() == old(self).prev_mode_spec(),
            final(self).pud_mode_spec() == old(self).pud_mode_spec(),
            final(self).async_registered() == old(self).async_registered(),
            final(self).wf() == old(self).wf(),
    {
        self.reset_on_drop = reset_on_drop;
    }

    /// Configures a synchronous interrupt trigger: any previously configured
    /// trigger — synchronous or asynchronous — is cleared first, so at most
    /// one trigger mode is ever active for the pin. After it, block for edges
    /// with [`poll_interrupt`](Self::poll_interrupt).
    pub fn set_interrupt(&mut self, reg: &mut InterruptRegistry, trigger: Trigger) -> (r: Result<
        (),
        Error,
    >)
        requires
            old(reg).inv(),
            old(self).wf(),
        ensures
            r is Ok,
            final(reg).inv(),
            final(reg)@.modes == old(reg)@.modes.update(
                old(self).pin_id(),
                TriggerMode::Sync(trigger),
            ),
            final(reg)@.cached == old(reg)@.cached.update(old(self).pin_id(), None::<Level>),
            !final(self).async_registered(),
            final(self).pin_id() == old(self).pin_id(),
            final(self).prev_mode_spec() == old(self).prev_mode_spec(),
            final(self).pud_mode_spec() == old(self).pud_mode_spec(),
            final(self).reset_on_drop_spec() == old(self).reset_on_drop_spec(),
            final(self).wf(),
    {
        // each pin can only be configured for a single trigger mode
        self.clear_async_interrupt(reg)?;
        reg.set_sync_interrupt(self.pin.pin(), trigger);
        proof {
            assert(reg@.modes =~= old(reg)@.modes.update(
                old(self).pin_id(),
                TriggerMode::Sync(trigger),
            ));
            assert(reg@.cached =~= old(reg)@.cached.update(old(self).pin_id(), None::<Level>));
        }
        Ok(())
    }

    /// Removes a previously configured synchronous interrupt trigger;
    /// idempotent, and an asynchronous registration is untouched.
    pub fn clear_interrupt(&mut self, reg: &mut InterruptRegistry) -> (r: Result<(), Error>)
        requires
            old(reg).inv(),
            old(self).wf(),
        ensures
            r is Ok,
            final(reg).inv(),
            final(reg)@.modes == old(reg)@.modes.update(
                old(self).pin_id(),
                spec_clear_sync(old(reg)@.mode_of(old(self).pin_id())),
            ),
            final(reg)@.cached == old(reg)@.cached.update(old(self).pin_id(), None::<Level>),
            *final(self) == *old(self),
    {
        reg.clear_sync_interrupt(self.pin.pin());
        Ok(())
    }

    /// Decides what a synchronous wait for an edge on this pin returns.
    ///
    /// The blocking itself lives with the embedding application: it holds the
    /// process-wide poll lock (one synchronous poll in flight at a time),
    /// sleeps on the shared wait primitive for at most the caller's timeout,
    /// and passes the edge the wait reported as `event` — `None` when the
    /// timeout elapsed first, which with a zero-length timeout is immediate.
    ///
    /// The pin must hold a synchronous trigger, else
    /// [`Error::PinNotConfigured`]. With `reset` false, an edge cached since
    /// the last poll is returned without consulting `event`; with `reset`
    /// true the cached edge is discarded. Either way the cached edge is gone
    /// afterwards, so no event is ever returned twice.
    pub fn poll_interrupt(
        &mut self,
        reg: &mut InterruptRegistry,
        reset: bool,
        event: Option<Level>,
    ) -> (r: Result<Option<Level>, Error>)
        requires
            old(reg).inv(),
            old(self).wf(),
        ensures
            final(reg).inv(),
            r == spec_poll_result(
                old(reg)@.mode_of(old(self).pin_id()),
                old(reg)@.cached_of(old(self).pin_id()),
                reset,
                event,
            ),
            final(reg)@.modes == old(reg)@.modes,
            final(reg)@.cached == (if old(reg)@.mode_of(old(self).pin_id()) is Sync {
                old(reg)@.cached.update(old(self).pin_id(), None::<Level>)
            } else {
                old(reg)@.cached
            }),
            *final(self) == *old(self),
    {
        let pin = self.pin.pin();
        let m = reg.trigger_mode(pin);
        if let TriggerMode::Sync(t) = m {
            let cached = reg.take_cached(pin);
            if !reset && cached.is_some() {
                Ok(cached)
            } else {
                match event {
                    Some(l) => if trigger_matches_level(t, l) {
                        Ok(Some(l))
                    } else {
                        Ok(None)
                    },
                    None => Ok(None),
                }
            }
        } else {
            Err(Error::PinNotConfigured)
        }
    }

    /// Configures an asynchronous interrupt trigger: any previously
    /// configured trigger — synchronous or asynchronous — is cleared first.
    ///
    /// The embedding application spawns the dedicated worker that blocks on
    /// the pin's line and runs the caller's callback for every edge that
    /// [`InterruptRegistry::should_dispatch`] approves. The worker keeps
    /// waiting even after this handle is released, until
    /// [`clear_async_interrupt`](Self::clear_async_interrupt) stops it.
    pub fn set_async_interrupt(&mut self, reg: &mut InterruptRegistry, trigger: Trigger) -> (r:
        Result<(), Error>)
        requires
            old(reg).inv(),
            old(self).wf(),
        ensures
            r is Ok,
            final(reg).inv(),
            final(reg)@.modes == old(reg)@.modes.update(
                old(self).pin_id(),
                TriggerMode::Async(trigger),
            ),
            final(reg)@.cached == old(reg)@.cached.update(old(self).pin_id(), None::<Level>),
            final(self).async_registered(),
            final(self).pin_id() == old(self).pin_id(),
            final(self).prev_mode_spec() == old(self).prev_mode_spec(),
            final(self).pud_mode_spec() == old(self).pud_mode_spec(),
            final(self).reset_on_drop_spec() == old(self).reset_on_drop_spec(),
            final(self).wf(),
    {
        self.clear_interrupt(reg)?;
        self.clear_async_interrupt(reg)?;
        reg.set_async_interrupt(self.pin.pin(), trigger);
        self.async_active = true;
        proof {
            assert(reg@.modes =~= old(reg)@.modes.update(
                old(self).pin_id(),
                TriggerMode::Async(trigger),
            ));
            assert(reg@.cached =~= old(reg)@.cached.update(old(self).pin_id(), None::<Level>));
        }
        Ok(())
    }

    /// Removes a previously configured asynchronous interrupt trigger;
    /// idempotent. The embedding application stops the worker and waits for
    /// its termination before this returns, so no callback fires afterwards.
    pub fn clear_async_interrupt(&mut self, reg: &mut InterruptRegistry) -> (r: Result<(), Error>)
        requires
            old(reg).inv(),
            old(self).wf(),
        ensures
            r is Ok,
            final(reg).inv(),
            final(reg)@.modes == (if old(self).async_registered() {
                old(reg)@.modes.update(
                    old(self).pin_id(),
                    spec_clear_async(old(reg)@.mode_of(old(self).pin_id())),
                )
            } else {
                old(reg)@.modes
            }),
            final(reg)@.cached == old(reg)@.cached,
            !final(self).async_registered(),
            final(self).pin_id() == old(self).pin_id(),
            final(self).prev_mode_spec() == old(self).prev_mode_spec(),
            final(self).pud_mode_spec() == old(self).pud_mode_spec(),
            final(self).reset_on_drop_spec() == old(self).reset_on_drop_spec(),
            final(self).wf(),
    {
        if self.async_active {
            reg.clear_async_interrupt(self.pin.pin());
            self.async_active = false;
        }
        Ok(())
    }

    /// Releases the pin: restores what the handle changed (unless
    /// restore-on-release is disabled) and returns the number to the pool,
    /// exactly once. An asynchronous worker the caller registered and never
    /// cleared keeps running past this point; that is the deliberate
    /// fire-and-forget tradeoff of one worker per pin.
    pub fn release(self, mem: &mut GpioMem, pool: &mut PinPool)
        requires
            old(mem).inv(),
            old(pool).inv(),
            self.wf(),
            old(pool).is_taken(self.pin_id()),
        ensures
            final(mem).inv(),
            final(pool).inv(),
            final(mem)@ == spec_release(
                old(mem)@,
                self.pin_id(),
                self.prev_mode_spec(),
                self.pud_mode_spec(),
                self.reset_on_drop_spec(),
            ),
            final(pool)@ == old(pool)@.update(self.pin_id(), false),
    {
        if self.reset_on_drop {
            if let Some(prev) = self.prev_mode {
                self.pin.set_mode(mem, prev);
            }
            if self.pud_mode != PullUpDown::Off {
                self.pin.set_pullupdown(mem, PullUpDown::Off);
            }
        }
        pool.release(self.pin.pin());
    }
}

/// GPIO pin configured as output.
#[derive(Debug)]
pub struct OutputPin {
    pin: Pin,
    prev_mode: Option<Mode>,
    reset_on_drop: bool,
    pud_mode: PullUpDown,
}

impl OutputPin {
    pub closed spec fn pin_id(self) -> int {
        self.pin.pin_id()
    }

    pub closed spec fn prev_mode_spec(self) -> Option<Mode> {
        self.prev_mode
    }

    pub closed spec fn pud_mode_spec(self) -> PullUpDown {
        self.pud_mode
    }

    pub closed spec fn reset_on_drop_spec(self) -> bool {
        self.reset_on_drop
    }

    pub open spec fn wf(self) -> bool {
        0 <= self.pin_id() < MAX
    }

    /// Reads the current mode and writes [`Mode::Output`] only if it differs,
    /// recording the mode found for restoration. Output configuration does
    /// not touch the pull state.
    pub(crate) fn new(pin: Pin, mem: &mut GpioMem) -> (p: OutputPin)
        requires
            old(mem).inv(),
            pin.wf(),
        ensures
            final(mem).inv(),
            final(mem)@ == spec_configure(old(mem)@, pin.pin_id(), Mode::Output),
            p.wf(),
            p.pin_id() == pin.pin_id(),
            p.prev_mode_spec() == spec_prev_mode(old(mem)@, pin.pin_id(), Mode::Output),
            p.pud_mode_spec() == PullUpDown::Off,
            p.reset_on_drop_spec(),
    {
        let prev = pin.mode(mem);
        let prev_mode: Option<Mode> = if prev == Mode::Output {
            None
        } else {
            pin.set_mode(mem, Mode::Output);
            Some(prev)
        };
        OutputPin { pin, prev_mode, reset_on_drop: true, pud_mode: PullUpDown::Off }
    }

    /// Returns the GPIO pin number.
    pub fn pin(&self) -> (n: u8)
        ensures
            n as int == self.pin_id(),
    {
        self.pin.pin()
    }

    /// Reads the pin's current logic level.
    pub fn read(&self, mem: &GpioMem) -> (l: Level)
        requires
            mem.inv(),
            self.wf(),
        ensures
            l == mem@.pin_level(self.pin_id()),
    {
        self.pin.read(mem)
    }

    /// Returns `true` if the pin's logic level is [`Level::Low`].
    pub fn is_low(&self, mem: &GpioMem) -> (b: bool)
        requires
            mem.inv(),
            self.wf(),
        ensures
            b == (mem@.pin_level(self.pin_id()) == Level::Low),
    {
        self.pin.read(mem) == Level::Low
    }

    /// Returns `true` if the pin's logic level is [`Level::High`].
    pub fn is_high(&self, mem: &GpioMem) -> (b: bool)
        requires
            mem.inv(),
            self.wf(),
        ensures
            b == (mem@.pin_level(self.pin_id()) == Level::High),
    {
        self.pin.read(mem) == Level::High
    }

    /// Sets the pin's logic level to [`Level::Low`].
    pub fn set_low(&self, mem: &mut GpioMem)
        requires
            old(mem).inv(),
            self.wf(),
        ensures
            final(mem).inv(),
            final(mem)@ == old(mem)@.with_low(self.pin_id()),
    {
        self.pin.set_low(mem);
    }

    /// Sets the pin's logic level to [`Level::High`].
    pub fn set_high(&self, mem: &mut GpioMem)
        requires
            old(mem).inv(),
            self.wf(),
        ensures
            final(mem).inv(),
            final(mem)@ == old(mem)@.with_high(self.pin_id()),
    {
        self.pin.set_high(mem);
    }

    /// Sets the pin's logic level.
    pub fn write(&self, mem: &mut GpioMem, level: Level)
        requires
            old(mem).inv(),
            self.wf(),
        ensures
            final(mem).inv(),
            final(mem)@ == spec_write_level(old(mem)@, self.pin_id(), level),
    {
        self.pin.write(mem, level);
    }

    /// Returns the value of `reset_on_drop`.
    pub fn reset_on_drop(&self) -> (b: bool)
        ensures
            b == self.reset_on_drop_spec(),
    {
        self.reset_on_drop
    }

    /// When enabled (the default), releasing the handle restores the pin's
    /// previous mode.
    pub fn set_reset_on_drop(&mut self, reset_on_drop: bool)
        ensures
            final(self).reset_on_drop_spec() == reset_on_drop,
            final(self).pin_id() == old(self).pin_id(),
            final(self).prev_mode_spec() == old(self).prev_mode_spec(),
            final(self).pud_mode_spec() == old(self).pud_mode_spec(),
            final(self).wf() == old(self).wf(),
    {
        self.reset_on_drop = reset_on_drop;
    }

    /// Releases the pin: restores what the handle changed (unless
    /// restore-on-release is disabled) and returns the number to the pool,
    /// exactly once.
    pub fn release(self, mem: &mut GpioMem, pool: &mut PinPool)
        requires
            old(mem).inv(),
            old(pool).inv(),
            self.wf(),
            old(pool).is_taken(self.pin_id()),
        ensures
            final(mem).inv(),
            final(pool).inv(),
            final(mem)@ == spec_release(
                old(mem)@,
                self.pin_id(),
                self.prev_mode_spec(),
                self.pud_mode_spec(),
                self.reset_on_drop_spec(),
            ),
            final(pool)@ == old(pool)@.update(self.pin_id(), false),
    {
        if self.reset_on_drop {
            if let Some(prev) = self.prev_mode {
                self.pin.set_mode(mem, prev);
            }
            if self.pud_mode != PullUpDown::Off {
                self.pin.set_pullupdown(mem, PullUpDown::Off);
            }
        }
        pool.release(self.pin.pin());
    }
}

/// GPIO pin configured with an alternate function.
#[derive(Debug)]
pub struct AltPin {
    pin: Pin,
    mode: Mode,
    prev_mode: Option<Mode>,
    reset_on_drop: bool,
    pud_mode: PullUpDown,
}

impl AltPin {
    pub closed spec fn pin_id(self) -> int {
        self.pin.pin_id()
    }

    /// The alternate function this handle configured.
    pub closed spec fn mode_spec(self) -> Mode {
        self.mode
    }

    pub closed spec fn prev_mode_spec(self) -> Option<Mode> {
        self.prev_mode
    }

    pub closed spec fn pud_mode_spec(self) -> PullUpDown {
        self.pud_mode
    }

    pub closed spec fn reset_on_drop_spec(self) -> bool {
        self.reset_on_drop
    }

    pub open spec fn wf(self) -> bool {
        0 <= self.pin_id() < MAX
    }

    /// Reads the current mode and writes the target mode only if it differs,
    /// recording the mode found for restoration.
    pub(crate) fn new(pin: Pin, mode: Mode, mem: &mut GpioMem) -> (p: AltPin)
        requires
            old(mem).inv(),
            pin.wf(),
        ensures
            final(mem).inv(),
            final(mem)@ == spec_configure(old(mem)@, pin.pin_id(), mode),
            p.wf(),
            p.pin_id() == pin.pin_id(),
            p.mode_spec() == mode,
            p.prev_mode_spec() == spec_prev_mode(old(mem)@, pin.pin_id(), mode),
            p.pud_mode_spec() == PullUpDown::Off,
            p.reset_on_drop_spec(),
    {
        let prev = pin.mode(mem);
        let prev_mode: Option<Mode> = if prev == mode {
            None
        } else {
            pin.set_mode(mem, mode);
            Some(prev)
        };
        AltPin { pin, mode, prev_mode, reset_on_drop: true, pud_mode: PullUpDown::Off }
    }

    /// Returns the GPIO pin number.
    pub fn pin(&self) -> (n: u8)
        ensures
            n as int == self.pin_id(),
    {
        self.pin.pin()
    }

    /// Reads the pin's current logic level.
    pub fn read(&self, mem: &GpioMem) -> (l: Level)
        requires
            mem.inv(),
            self.wf(),
        ensures
            l == mem@.pin_level(self.pin_id()),
    {
        self.pin.read(mem)
    }

    /// Returns `true` if the pin's logic level is [`Level::Low`].
    pub fn is_low(&self, mem: &GpioMem) -> (b: bool)
        requires
            mem.inv(),
            self.wf(),
        ensures
            b == (mem@.pin_level(self.pin_id()) == Level::Low),
    {
        self.pin.read(mem) == Level::Low
    }

    /// Returns `true` if the pin's logic level is [`Level::High`].
    pub fn is_high(&self, mem: &GpioMem) -> (b: bool)
        requires
            mem.inv(),
            self.wf(),
        ensures
            b == (mem@.pin_level(self.pin_id()) == Level::High),
    {
        self.pin.read(mem) == Level::High
    }

    /// Sets the pin's logic level to [`Level::Low`].
    pub fn set_low(&self, mem: &mut GpioMem)
        requires
            old(mem).inv(),
            self.wf(),
        ensures
            final(mem).inv(),
            final(mem)@ == old(mem)@.with_low(self.pin_id()),
    {
        self.pin.set_low(mem);
    }

    /// Sets the pin's logic level to [`Level::High`].
    pub fn set_high(&self, mem: &mut GpioMem)
        requires
            old(mem).inv(),
            self.wf(),
        ensures
            final(mem).inv(),
            final(mem)@ == old(mem)@.with_high(self.pin_id()),
    {
        self.pin.set_high(mem);
    }

    /// Sets the pin's logic level.
    pub fn write(&self, mem: &mut GpioMem, level: Level)
        requires
            old(mem).inv(),
            self.wf(),
        ensures
            final(mem).inv(),
            final(mem)@ == spec_write_level(old(mem)@, self.pin_id(), level),
    {
        self.pin.write(mem, level);
    }

    /// Returns the value of `reset_on_drop`.
    pub fn reset_on_drop(&self) -> (b: bool)
        ensures
            b == self.reset_on_drop_spec(),
    {
        self.reset_on_drop
    }

    /// When enabled (the default), releasing the handle restores the pin's
    /// previous mode.
    pub fn set_reset_on_drop(&mut self, reset_on_drop: bool)
        ensures
            final(self).reset_on_drop_spec() == reset_on_drop,
            final(self).pin_id() == old(self).pin_id(),
            final(self).mode_spec() == old(self).mode_spec(),
            final(self).prev_mode_spec() == old(self).prev_mode_spec(),
            final(self).pud_mode_spec() == old(self).pud_mode_spec(),
            final(self).wf() == old(self).wf(),
    {
        self.reset_on_drop = reset_on_drop;
    }

    /// Releases the pin: restores what the handle changed (unless
    /// restore-on-release is disabled) and returns the number to the pool,
    /// exactly once.
    pub fn release(self, mem: &mut GpioMem, pool: &mut PinPool)
        requires
            old(mem).inv(),
            old(pool).inv(),
            self.wf(),
            old(pool).is_taken(self.pin_id()),
        ensures
            final(mem).inv(),
            final(pool).inv(),
            final(mem)@ == spec_release(
                old(mem)@,
                self.pin_id(),
                self.prev_mode_spec(),
                self.pud_mode_spec(),
                self.reset_on_drop_spec(),
            ),
            final(pool)@ == old(pool)@.update(self.pin_id(), false),
    {
        if self.reset_on_drop {
            if let Some(prev) = self.prev_mode {
                self.pin.set_mode(mem, prev);
            }
            if self.pud_mode != PullUpDown::Off {
                self.pin.set_pullupdown(mem, PullUpDown::Off);
            }
        }
        pool.release(self.pin.pin());
    }
}

/// Law: configuring a pin as input and then releasing it with
/// restore-on-release enabled returns its mode to whatever it was before the
/// configuration; with restore-on-release disabled the configured mode stays
/// in place.
pub proof fn lemma_restore_on_release(v: GpioView, pin: int, pud: PullUpDown)
    requires
        v.wf(),
        0 <= pin < MAX,
    ensures
        spec_release(
            spec_input_configure(v, pin, pud),
            pin,
            spec_prev_mode(v, pin, Mode::Input),
            pud,
            true,
        ).pin_mode(pin) == v.pin_mode(pin),
        spec_release(
            spec_input_configure(v, pin, pud),
            pin,
            spec_prev_mode(v, pin, Mode::Input),
            pud,
            false,
        ).pin_mode(pin) == Mode::Input,
{
    let base = spec_configure(v, pin, Mode::Input);
    if v.pin_mode(pin) != Mode::Input {
        lemma_with_mode(v, pin, Mode::Input);
    }
    let configured = spec_input_configure(v, pin, pud);
    lemma_with_pull(base, pin, pud);
    assert(configured.wf());
    assert(configured.pin_mode(pin) == Mode::Input);
    match spec_prev_mode(v, pin, Mode::Input) {
        Some(m) => {
            lemma_with_mode(configured, pin, m);
            if pud != PullUpDown::Off {
                lemma_with_pull(configured.with_mode(pin, m), pin, PullUpDown::Off);
            }
        },
        None => {
            if pud != PullUpDown::Off {
                lemma_with_pull(configured, pin, PullUpDown::Off);
            }
        },
    }
}

} // verus!
