//! The pin ownership pool: one exclusivity flag per pin number.
//!
//! The pool is the sole path preventing two independent typed handles from
//! existing for the same physical pin at once. It does not serialize register
//! access — that is the register file's per-register exclusion — it prevents
//! logical double-configuration, where two callers would each believe they
//! own the "previous mode" bookkeeping for one pin.

use vstd::prelude::*;

verus! {

use crate::pin::{Pin, MAX};
use crate::Error;

/// Whether taking `pin` out of a pool in state `flags` fails with
/// [`Error::PinInUse`].
pub open spec fn spec_take_in_use(flags: Seq<bool>, pin: int) -> bool {
    flags[pin]
}

/// The pool state after an attempt to take `pin`: the flag is raised if it
/// was free, and nothing moves if the attempt failed.
pub open spec fn spec_take_flags(flags: Seq<bool>, pin: int) -> Seq<bool> {
    if flags[pin] {
        flags
    } else {
        flags.update(pin, true)
    }
}

/// Process-wide table of 54 exclusivity flags, each true while its pin number
/// is checked out.
#[derive(Debug)]
pub struct PinPool {
    taken: Vec<bool>,
}

impl View for PinPool {
    type V = Seq<bool>;

    closed spec fn view(&self) -> Seq<bool> {
        self.taken@
    }
}

impl PinPool {
    /// One flag per pin.
    pub open spec fn inv(self) -> bool {
        self@.len() == MAX
    }

    /// Whether `pin` is currently checked out.
    pub open spec fn is_taken(self, pin: int) -> bool {
        self@[pin]
    }

    /// Creates the pool with every pin number free. It is created once, when
    /// the facility that owns the register file opens, and lives exactly as
    /// long as it.
    pub fn new() -> (p: PinPool)
        ensures
            p.inv(),
            forall|i: int| 0 <= i < MAX ==> !(#[trigger] p@[i]),
    {
        let mut taken: Vec<bool> = Vec::new();
        while taken.len() < MAX
            invariant
                taken@.len() <= MAX,
                forall|i: int| 0 <= i < taken@.len() ==> !(#[trigger] taken@[i]),
            decreases MAX - taken.len(),
        {
            taken.push(false);
        }
        PinPool { taken }
    }

    /// Atomically transitions `pin`'s exclusivity flag false→true and hands
    /// out the single-owner handle; fails with [`Error::PinInUse`] — and
    /// moves nothing — exactly when the flag was already raised.
    pub fn take(&mut self, pin: u8) -> (r: Result<Pin, Error>)
        requires
            old(self).inv(),
            pin < MAX,
        ensures
            final(self).inv(),
            final(self)@ == spec_take_flags(old(self)@, pin as int),
            r is Err <==> spec_take_in_use(old(self)@, pin as int),
            r matches Err(e) ==> e == Error::PinInUse,
            r matches Ok(p) ==> p.wf() && p.pin_id() == pin as int,
    {
        if self.taken[pin as usize] {
            Err(Error::PinInUse)
        } else {
            self.taken[pin as usize] = true;
            Ok(Pin::new(pin))
        }
    }

    /// Returns `pin`'s flag to free. Callers release only a pin they hold;
    /// the typed handles do so exactly once, when they are released.
    pub fn release(&mut self, pin: u8)
        requires
            old(self).inv(),
            pin < MAX,
            old(self).is_taken(pin as int),
        ensures
            final(self).inv(),
            final(self)@ == old(self)@.update(pin as int, false),
    {
        self.taken[pin as usize] = false;
    }
}

/// Law: a pin number is held by at most one caller at a time — after a
/// successful take, taking the same number again fails with
/// [`Error::PinInUse`], and once released the number can be taken again.
pub proof fn lemma_take_exclusive(flags: Seq<bool>, pin: int)
    requires
        flags.len() == MAX,
        0 <= pin < MAX,
        !spec_take_in_use(flags, pin),
    ensures
        spec_take_in_use(spec_take_flags(flags, pin), pin),
        !spec_take_in_use(spec_take_flags(flags, pin).update(pin, false), pin),
{
}

} // verus!
