use vstd::prelude::*;

verus! {

/// A slot that holds at most one hardware handle.
pub struct Slot<T> {
    handle: Option<T>,
}

impl<T> Slot<T> {
    /// The handle in the slot, if any.
    pub closed spec fn content(&self) -> Option<T> {
        self.handle
    }

    /// A slot with no handle.
    pub fn empty() -> (s: Slot<T>)
        ensures
            s.content() is None,
    {
        Slot { handle: None }
    }

    /// Whether a handle is in the slot.
    pub fn is_installed(&self) -> (r: bool)
        ensures
            r == self.content() is Some,
    {
        self.handle.is_some()
    }

    /// Puts `h` in an empty slot; a full slot keeps its handle and `h` comes
    /// back as the error. Putting back a taken handle is an install too.
    pub fn install(&mut self, h: T) -> (r: Result<(), T>)
        ensures
            old(self).content() is None ==> r is Ok && final(self).content() == Some(h),
            old(self).content() is Some ==> r == Err::<(), T>(h) && final(self).content()
                == old(self).content(),
    {
        if self.handle.is_some() {
            Err(h)
        } else {
            self.handle = Some(h);
            Ok(())
        }
    }

    /// Takes the handle out, leaving the slot empty.
    pub fn take(&mut self) -> (r: Option<T>)
        ensures
            r == old(self).content(),
            final(self).content() is None,
    {
        self.handle.take()
    }

    /// Exclusive access to the installed handle for the length of the borrow.
    pub fn get_mut(&mut self) -> (h: &mut T)
        requires
            old(self).content() is Some,
        ensures
            *h == old(self).content()->0,
            final(self).content() == Some(*final(h)),
    {
        match &mut self.handle {
            Some(h) => h,
            None => vstd::pervasive::unreached(),
        }
    }
}

/// The three shared hardware handles: the display driver, the clock and the
/// random source.
pub struct PeripheralRegistry<D, C, R> {
    pub display: Slot<D>,
    pub clock: Slot<C>,
    pub rng: Slot<R>,
}

impl<D, C, R> PeripheralRegistry<D, C, R> {
    /// A registry with all three slots empty.
    pub fn new() -> (reg: PeripheralRegistry<D, C, R>)
        ensures
            reg.display.content() is None,
            reg.clock.content() is None,
            reg.rng.content() is None,
    {
        PeripheralRegistry { display: Slot::empty(), clock: Slot::empty(), rng: Slot::empty() }
    }

    /// A registry with the three handles installed.
    pub fn with_handles(display: D, clock: C, rng: R) -> (reg: PeripheralRegistry<D, C, R>)
        ensures
            reg.display.content() == Some(display),
            reg.clock.content() == Some(clock),
            reg.rng.content() == Some(rng),
    {
        PeripheralRegistry {
            display: Slot { handle: Some(display) },
            clock: Slot { handle: Some(clock) },
            rng: Slot { handle: Some(rng) },
        }
    }
}

} // verus!
