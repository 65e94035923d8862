use vstd::prelude::*;

verus! {

/// A single slot holding at most one live worker handle.
///
/// The slot is only ever emptied by `take`, which hands the handle over to the
/// caller: whoever receives it is the only party responsible for terminating it.
pub struct Registry<H> {
    slot: Option<H>,
}

impl<H> View for Registry<H> {
    type V = Option<H>;

    closed spec fn view(&self) -> Option<H> {
        self.slot
    }
}

impl<H> Registry<H> {
    /// An empty registry: no worker is running.
    pub fn new() -> (r: Self)
        ensures
            r@ is None,
    {
        Registry { slot: None }
    }

    /// Stores `h`, replacing whatever the slot held before.
    ///
    /// The previous handle must already have been taken: the caller owns that.
    pub fn put(&mut self, h: H)
        ensures
            final(self)@ == Some(h),
        no_unwind
    {
        self.slot = Some(h);
    }

    /// Removes and returns the current handle, leaving the slot empty.
    pub fn take(&mut self) -> (r: Option<H>)
        ensures
            r == old(self)@,
            final(self)@ is None,
        no_unwind
    {
        let mut taken: Option<H> = None;
        std::mem::swap(&mut self.slot, &mut taken);
        taken
    }

    /// Whether a handle is currently registered.
    pub fn is_occupied(&self) -> (r: bool)
        ensures
            r == self@ is Some,
    {
        self.slot.is_some()
    }
}

} // verus!
