use vstd::prelude::*;

verus! {

/// A one-shot extraction cell: it is constructed already holding a value,
/// and a flag guards the value so that it can be taken out at most once,
/// however many times extraction is attempted.
pub struct OnceTake<T> {
    item: Option<T>,
    taken: bool,
}

impl<T> View for OnceTake<T> {
    type V = Option<T>;

    closed spec fn view(&self) -> Option<T> {
        self.item
    }
}

impl<T> OnceTake<T> {
    /// The flag agrees with whether the value is still present.
    pub closed spec fn wf(&self) -> bool {
        self.taken <==> self.item is None
    }

    pub fn new(item: T) -> (r: Self)
        ensures
            r.wf(),
            r@ == Some(item),
    {
        OnceTake { item: Some(item), taken: false }
    }

    /// Extract the value. The first extraction receives the value; every
    /// later one receives nothing.
    pub fn take(&mut self) -> (r: Option<T>)
        requires
            old(self).wf(),
        ensures
            final(self).wf(),
            r == old(self)@,
            final(self)@ is None,
            old(self)@ is None ==> *final(self) == *old(self),
    {
        match self.taken {
            false => {
                self.taken = true;
                self.item.take()
            }
            true => None,
        }
    }

    /// Extraction for a caller that already has exclusive access, for
    /// instance during teardown; it obeys the same at-most-once rule as
    /// `take`.
    pub fn take_mut(&mut self) -> (r: Option<T>)
        requires
            old(self).wf(),
        ensures
            final(self).wf(),
            r == old(self)@,
            final(self)@ is None,
            old(self)@ is None ==> *final(self) == *old(self),
    {
        let was_taken = self.taken;
        self.taken = true;
        match was_taken {
            false => self.item.take(),
            true => None,
        }
    }

    /// Borrow the value in place, if it has not been taken yet, without
    /// counting as an extraction.
    pub fn get_mut(&mut self) -> (r: Option<&mut T>)
        requires
            old(self).wf(),
        ensures
            final(self).wf(),
            r is Some <==> old(self)@ is Some,
            old(self)@ is None ==> *final(self) == *old(self),
            r matches Some(m) ==> *m == old(self)@->0 && final(self)@ == Some(*final(m)),
    {
        match self.taken {
            false => self.item.as_mut(),
            true => None,
        }
    }
}

} // verus!
