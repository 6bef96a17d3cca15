//! Utilities for dealing with dereferencing.

use vstd::prelude::*;

verus! {

/// Noop smart pointer which holds the value on which it points to.
///
/// It lets a freshly created value satisfy an interface shaped like
/// "something which dereferences to the value".
#[derive(Debug, Default, Clone, Copy, PartialEq, Eq, PartialOrd, Ord, Hash)]
pub struct DerefWrapper<T>(pub T);

impl<T> DerefWrapper<T> {
    /// Creates self from provided value.
    pub fn new(value: T) -> (r: Self)
        ensures
            r.0 == value,
    {
        Self(value)
    }

    /// Returns inner value, consuming self.
    pub fn into_inner(self) -> (r: T)
        ensures
            r == self.0,
    {
        let Self(value) = self;
        value
    }
}

impl<T> From<T> for DerefWrapper<T> {
    fn from(value: T) -> (r: Self) {
        Self::new(value)
    }
}

impl<T> vstd::std_specs::convert::FromSpecImpl<T> for DerefWrapper<T> {
    open spec fn obeys_from_spec() -> bool {
        true
    }

    open spec fn from_spec(value: T) -> Self {
        DerefWrapper(value)
    }
}

impl<T> core::ops::Deref for DerefWrapper<T> {
    type Target = T;

    fn deref(&self) -> (r: &T)
        ensures
            *r == self.0,
    {
        let Self(value) = self;
        value
    }
}

impl<T> core::ops::DerefMut for DerefWrapper<T> {
    fn deref_mut(&mut self) -> (r: &mut T)
        ensures
            *r == old(self).0,
            (*final(self)).0 == *final(r),
    {
        let Self(value) = self;
        value
    }
}

} // verus!
