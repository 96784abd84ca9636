//! One-slot holders for work that is waiting to be done: a flag and a value.
use vstd::prelude::*;

verus! {

/// A flag that records that something is pending.
#[derive(Clone, Copy, Debug, PartialEq, Eq)]
pub struct PendingFlag(bool);

impl View for PendingFlag {
    type V = bool;

    closed spec fn view(&self) -> bool {
        self.0
    }
}

impl PendingFlag {
    /// A flag that is not set.
    pub fn new() -> (f: Self)
        ensures
            f@ == false,
    {
        PendingFlag(false)
    }

    /// A flag that is set.
    pub fn armed() -> (f: Self)
        ensures
            f@ == true,
    {
        PendingFlag(true)
    }

    /// Sets the flag.
    pub fn set(&mut self)
        ensures
            final(self)@ == true,
    {
        self.0 = true;
    }

    /// Clears the flag.
    pub fn clear(&mut self)
        ensures
            final(self)@ == false,
    {
        self.0 = false;
    }

    /// Whether the flag is set.
    pub fn is_set(self) -> (b: bool)
        ensures
            b == self@,
    {
        self.0
    }

    /// Clears the flag and says whether it was set.
    pub fn take(&mut self) -> (was: bool)
        ensures
            was == old(self)@,
            final(self)@ == false,
    {
        let value = self.0;
        self.0 = false;
        value
    }
}

/// A slot that holds at most one pending value.
#[derive(Clone, Copy, Debug, PartialEq, Eq)]
pub struct PendingValue<T> {
    value: Option<T>,
}

impl<T> View for PendingValue<T> {
    type V = Option<T>;

    closed spec fn view(&self) -> Option<T> {
        self.value
    }
}

impl<T> PendingValue<T> {
    /// An empty slot.
    pub fn new() -> (p: Self)
        ensures
            p@ == None::<T>,
    {
        PendingValue { value: None }
    }

    /// A slot holding `value`.
    pub fn with(value: T) -> (p: Self)
        ensures
            p@ == Some(value),
    {
        PendingValue { value: Some(value) }
    }

    /// Puts `value` in the slot and hands back what it held.
    pub fn replace(&mut self, value: T) -> (previous: Option<T>)
        ensures
            previous == old(self)@,
            final(self)@ == Some(value),
    {
        let previous = match self.value.take() {
            Some(v) => Some(v),
            None => None,
        };
        self.value = Some(value);
        previous
    }

    /// Empties the slot.
    pub fn clear(&mut self)
        ensures
            final(self)@ == None::<T>,
    {
        self.value = None;
    }

    /// The value the slot holds, if any.
    pub fn as_ref(&self) -> (r: Option<&T>)
        ensures
            r == match self@ {
                Some(v) => Some(&v),
                None => None::<&T>,
            },
    {
        match &self.value {
            Some(v) => Some(v),
            None => None,
        }
    }

    /// Empties the slot and hands back what it held.
    pub fn take(&mut self) -> (previous: Option<T>)
        ensures
            previous == old(self)@,
            final(self)@ == None::<T>,
    {
        self.value.take()
    }
}

} // verus!
