//! The interrupt coordinator: per-pin trigger state, cached edges, and the
//! decisions the blocking machinery acts on.
//!
//! The blocking pieces live with the embedding application: the wait
//! primitive that sleeps until one of the claimed pin lines reports an edge
//! or a timeout elapses, the mutual-exclusion lock that serializes
//! synchronous polls process-wide, and the one worker thread per
//! asynchronously watched pin. Every decision those pieces act on — which
//! trigger mode a pin holds, whether an edge is delivered, what a poll
//! returns for each outcome of the wait — is made and verified here.

use vstd::prelude::*;

verus! {

use crate::pin::MAX;
use crate::{trigger_matches, trigger_matches_level, Error, Level, Trigger};

/// Trigger mode of one pin: at most one of the synchronous and asynchronous
/// modes is active at a time, with the trigger it matches against.
#[derive(Clone, Copy, Debug, PartialEq, Eq, Structural)]
pub enum TriggerMode {
    NotConfigured,
    Sync(Trigger),
    Async(Trigger),
}

/// The abstract state of the coordinator: each pin's trigger mode, and the
/// edge cached for it since the last poll.
#[verifier::ext_equal]
pub struct InterruptView {
    pub modes: Seq<TriggerMode>,
    pub cached: Seq<Option<Level>>,
}

impl InterruptView {
    pub open spec fn wf(self) -> bool {
        &&& self.modes.len() == MAX
        &&& self.cached.len() == MAX
    }

    pub open spec fn mode_of(self, pin: int) -> TriggerMode {
        self.modes[pin]
    }

    pub open spec fn cached_of(self, pin: int) -> Option<Level> {
        self.cached[pin]
    }
}

/// A pin's trigger mode after its synchronous trigger is cleared: an
/// asynchronous registration is untouched.
pub open spec fn spec_clear_sync(m: TriggerMode) -> TriggerMode {
    match m {
        TriggerMode::Sync(_) => TriggerMode::NotConfigured,
        _ => m,
    }
}

/// A pin's trigger mode after its asynchronous trigger is cleared: a
/// synchronous registration is untouched.
pub open spec fn spec_clear_async(m: TriggerMode) -> TriggerMode {
    match m {
        TriggerMode::Async(_) => TriggerMode::NotConfigured,
        _ => m,
    }
}

/// Whether an edge to `level` is handed to the asynchronous callback of a pin
/// whose trigger mode is `m`: exactly when an asynchronous trigger is
/// registered and the edge matches it.
pub open spec fn spec_should_dispatch(m: TriggerMode, level: Level) -> bool {
    match m {
        TriggerMode::Async(t) => trigger_matches(t, level),
        _ => false,
    }
}

/// What a synchronous poll returns for a pin whose trigger mode is `m`, whose
/// cached edge is `cached`, when the caller asked cached events to be reset
/// or not, and when the wait primitive reported `event` (`None` when the
/// timeout elapsed first). A pin without a synchronous trigger is refused; a
/// cached edge is returned without blocking unless reset was asked; an edge
/// the wait reported is returned if it matches the trigger, and a timeout
/// returns no event.
pub open spec fn spec_poll_result(
    m: TriggerMode,
    cached: Option<Level>,
    reset: bool,
    event: Option<Level>,
) -> Result<Option<Level>, Error> {
    match m {
        TriggerMode::Sync(t) => {
            if !reset && cached is Some {
                Ok(cached)
            } else {
                match event {
                    Some(l) => if trigger_matches(t, l) {
                        Ok(Some(l))
                    } else {
                        Ok(None)
                    },
                    None => Ok(None),
                }
            }
        },
        _ => Err(Error::PinNotConfigured),
    }
}

/// Per-pin interrupt bookkeeping shared by all pin handles.
#[derive(Debug)]
pub struct InterruptRegistry {
    modes: Vec<TriggerMode>,
    cached: Vec<Option<Level>>,
}

impl View for InterruptRegistry {
    type V = InterruptView;

    closed spec fn view(&self) -> InterruptView {
        InterruptView { modes: self.modes@, cached: self.cached@ }
    }
}

impl InterruptRegistry {
    pub open spec fn inv(self) -> bool {
        self@.wf()
    }

    /// Creates the coordinator with no trigger configured and no edge cached.
    pub fn new() -> (r: InterruptRegistry)
        ensures
            r.inv(),
            forall|p: int| 0 <= p < MAX ==> #[trigger] r@.mode_of(p) == TriggerMode::NotConfigured,
            forall|p: int| 0 <= p < MAX ==> #[trigger] r@.cached_of(p) is None,
    {
        let mut modes: Vec<TriggerMode> = Vec::new();
        while modes.len() < MAX
            invariant
                modes@.len() <= MAX,
                forall|i: int|
                    0 <= i < modes@.len() ==> #[trigger] modes@[i] == TriggerMode::NotConfigured,
            decreases MAX - modes.len(),
        {
            modes.push(TriggerMode::NotConfigured);
        }
        let mut cached: Vec<Option<Level>> = Vec::new();
        while cached.len() < MAX
            invariant
                cached@.len() <= MAX,
                forall|i: int| 0 <= i < cached@.len() ==> #[trigger] cached@[i] is None,
            decreases MAX - cached.len(),
        {
            cached.push(None);
        }
        InterruptRegistry { modes, cached }
    }

    /// Reports the trigger mode `pin` holds.
    pub fn trigger_mode(&self, pin: u8) -> (m: TriggerMode)
        requires
            self.inv(),
            pin < MAX,
        ensures
            m == self@.mode_of(pin as int),
    {
        self.modes[pin as usize]
    }

    /// Removes and returns the edge cached for `pin` since the last poll.
    pub fn take_cached(&mut self, pin: u8) -> (c: Option<Level>)
        requires
            old(self).inv(),
            pin < MAX,
        ensures
            final(self).inv(),
            c == old(self)@.cached_of(pin as int),
            final(self)@.modes == old(self)@.modes,
            final(self)@.cached == old(self)@.cached.update(pin as int, None::<Level>),
    {
        let c = self.cached[pin as usize];
        self.cached[pin as usize] = None;
        c
    }

    /// Records a synchronous trigger for `pin`, replacing whatever trigger
    /// mode it held, and drops a stale cached edge.
    pub fn set_sync_interrupt(&mut self, pin: u8, trigger: Trigger)
        requires
            old(self).inv(),
            pin < MAX,
        ensures
            final(self).inv(),
            final(self)@.modes == old(self)@.modes.update(
                pin as int,
                TriggerMode::Sync(trigger),
            ),
            final(self)@.cached == old(self)@.cached.update(pin as int, None::<Level>),
    {
        self.modes[pin as usize] = TriggerMode::Sync(trigger);
        self.cached[pin as usize] = None;
    }

    /// Clears `pin`'s synchronous trigger, leaving an asynchronous
    /// registration untouched; idempotent.
    pub fn clear_sync_interrupt(&mut self, pin: u8)
        requires
            old(self).inv(),
            pin < MAX,
        ensures
            final(self).inv(),
            final(self)@.modes == old(self)@.modes.update(
                pin as int,
                spec_clear_sync(old(self)@.mode_of(pin as int)),
            ),
            final(self)@.cached == old(self)@.cached.update(pin as int, None::<Level>),
    {
        let m = self.modes[pin as usize];
        if let TriggerMode::Sync(_) = m {
            self.modes[pin as usize] = TriggerMode::NotConfigured;
        } else {
            self.modes[pin as usize] = m;
        }
        self.cached[pin as usize] = None;
        proof {
            assert(self@.modes =~= old(self)@.modes.update(
                pin as int,
                spec_clear_sync(old(self)@.mode_of(pin as int)),
            ));
        }
    }

    /// Records an asynchronous trigger for `pin`, replacing whatever trigger
    /// mode it held.
    pub fn set_async_interrupt(&mut self, pin: u8, trigger: Trigger)
        requires
            old(self).inv(),
            pin < MAX,
        ensures
            final(self).inv(),
            final(self)@.modes == old(self)@.modes.update(
                pin as int,
                TriggerMode::Async(trigger),
            ),
            final(self)@.cached == old(self)@.cached.update(pin as int, None::<Level>),
    {
        self.modes[pin as usize] = TriggerMode::Async(trigger);
        self.cached[pin as usize] = None;
    }

    /// Clears `pin`'s asynchronous trigger, leaving a synchronous
    /// registration untouched; idempotent. The caller stops and joins the
    /// worker thread before this returns, so no callback fires afterwards.
    pub fn clear_async_interrupt(&mut self, pin: u8)
        requires
            old(self).inv(),
            pin < MAX,
        ensures
            final(self).inv(),
            final(self)@.modes == old(self)@.modes.update(
                pin as int,
                spec_clear_async(old(self)@.mode_of(pin as int)),
            ),
            final(self)@.cached == old(self)@.cached,
    {
        let m = self.modes[pin as usize];
        if let TriggerMode::Async(_) = m {
            self.modes[pin as usize] = TriggerMode::NotConfigured;
        } else {
            self.modes[pin as usize] = m;
        }
        proof {
            assert(self@.modes =~= old(self)@.modes.update(
                pin as int,
                spec_clear_async(old(self)@.mode_of(pin as int)),
            ));
        }
    }

    /// Records an edge the event source reported while no poll was waiting:
    /// it is cached for the next poll exactly when the pin holds a matching
    /// synchronous trigger.
    pub fn note_event(&mut self, pin: u8, level: Level)
        requires
            old(self).inv(),
            pin < MAX,
        ensures
            final(self).inv(),
            final(self)@.modes == old(self)@.modes,
            final(self)@.cached == (if old(self)@.mode_of(pin as int) matches TriggerMode::Sync(t)
                && trigger_matches(t, level) {
                old(self)@.cached.update(pin as int, Some(level))
            } else {
                old(self)@.cached
            }),
    {
        let m = self.modes[pin as usize];
        if let TriggerMode::Sync(t) = m {
            if trigger_matches_level(t, level) {
                self.cached[pin as usize] = Some(level);
            }
        }
    }

    /// Decides whether an edge to `level` on `pin` is handed to the pin's
    /// asynchronous callback. The worker thread asks this before each
    /// invocation.
    pub fn should_dispatch(&self, pin: u8, level: Level) -> (b: bool)
        requires
            self.inv(),
            pin < MAX,
        ensures
            b == spec_should_dispatch(self@.mode_of(pin as int), level),
    {
        let m = self.modes[pin as usize];
        if let TriggerMode::Async(t) = m {
            trigger_matches_level(t, level)
        } else {
            false
        }
    }
}

/// Law: once a pin's asynchronous trigger is cleared, no edge whatsoever is
/// dispatched to a callback for it; while an asynchronous trigger is
/// registered, exactly the edges matching it are dispatched.
pub proof fn lemma_async_dispatch(m: TriggerMode, t: Trigger, level: Level)
    ensures
        !spec_should_dispatch(spec_clear_async(m), level),
        spec_should_dispatch(TriggerMode::Async(t), level) == trigger_matches(t, level),
{
}

/// Law: a poll that finds no cached edge and whose wait reports no edge —
/// which is what a zero-length timeout yields on a pin with nothing pending —
/// returns "none" rather than an event, for every synchronous trigger and
/// either reset choice.
pub proof fn lemma_poll_no_pending_edge(t: Trigger, reset: bool)
    ensures
        spec_poll_result(TriggerMode::Sync(t), None, reset, None) == Ok::<
            Option<Level>,
            Error,
        >(None),
{
}

} // verus!
