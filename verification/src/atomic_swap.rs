use vstd::prelude::*;

verus! {

/// The three states of the capacity-one handoff slot. `Moving` marks the
/// window in which an operation has exclusive access to the payload between
/// its guard check and its commit; no operation ever leaves the slot in
/// `Moving`.
pub enum SlotState {
    Empty,
    Moving,
    Full,
}

/// A capacity-one mailbox: it holds zero or one value, accepts a value only
/// while empty, and gives a value out only while full. It is the handoff
/// medium between a producer depositing values and a consumer extracting
/// them, and its capacity of one is what enforces backpressure.
pub struct AtomicSwap<T> {
    item: Option<T>,
    state: SlotState,
}

impl<T> View for AtomicSwap<T> {
    type V = Option<T>;

    closed spec fn view(&self) -> Option<T> {
        self.item
    }
}

impl<T> AtomicSwap<T> {
    /// The slot is never left mid-transition, and the state tag agrees with
    /// whether a payload is present.
    pub closed spec fn wf(&self) -> bool {
        &&& self.state is Full <==> self.item is Some
        &&& self.state !is Moving
    }

    pub fn new() -> (r: Self)
        ensures
            r.wf(),
            r@ is None,
    {
        AtomicSwap { item: None, state: SlotState::Empty }
    }

    /// Try to insert an item. Returns the item without changing the
    /// underlying value if this swap is full.
    pub fn put(&mut self, item: T) -> (r: Option<T>)
        requires
            old(self).wf(),
        ensures
            final(self).wf(),
            old(self)@ is None ==> r is None && final(self)@ == Some(item),
            old(self)@ is Some ==> r == Some(item) && *final(self) == *old(self),
    {
        match self.state {
            SlotState::Empty => {
                self.state = SlotState::Moving;
                self.item = Some(item);
                self.state = SlotState::Full;
                None
            }
            _ => Some(item),
        }
    }

    /// Try to extract the held item. Returns nothing without changing the
    /// underlying value if this swap is not full.
    pub fn take(&mut self) -> (r: Option<T>)
        requires
            old(self).wf(),
        ensures
            final(self).wf(),
            r == old(self)@,
            final(self)@ is None,
            old(self)@ is None ==> *final(self) == *old(self),
    {
        match self.state {
            SlotState::Full => {
                self.state = SlotState::Moving;
                let item = self.item.take();
                self.state = SlotState::Empty;
                item
            }
            _ => None,
        }
    }
}

} // verus!
