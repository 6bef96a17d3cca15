//! Types of context used to represent different ways to provide some
//! dependency.

pub use self::ext::Context;

use vstd::prelude::*;

use crate::with::With;

pub mod clone;
pub mod convert;

mod ext;

verus! {

/// Context which represents no meaningful context.
pub type Empty = ();

/// Context which allows to provide dependency by *cloning*
/// if type of dependency implements [`Clone`]
/// and provider implements [`Provide`](crate::Provide)`<_>`.
#[derive(Debug, Default, Clone, Copy, PartialEq, Eq, PartialOrd, Ord, Hash)]
pub struct CloneOwned;

impl<T> With<T> for CloneOwned {
    type Output = CloneOwnedWith<T>;

    /// The composite is the nested context holding the dependency.
    open spec fn combines(self, dependency: T, output: CloneOwnedWith<T>) -> bool {
        output.0 == dependency
    }

    fn with(self, dependency: T) -> (r: CloneOwnedWith<T>) {
        dependency.into()
    }
}

/// Context which allows to provide dependency by *cloning*
/// if type of dependency implements [`Clone`]
/// and provider implements [`ProvideWith`](crate::with::ProvideWith)`<_, C>`.
#[derive(Debug, Default, Clone, Copy, PartialEq, Eq, PartialOrd, Ord, Hash)]
pub struct CloneOwnedWith<C>(pub C);

impl<C> CloneOwnedWith<C> {
    /// Creates self from provided context.
    pub fn new(context: C) -> (r: Self)
        ensures
            r.0 == context,
    {
        Self(context)
    }

    /// Returns inner context, consuming self.
    pub fn into_inner(self) -> (r: C)
        ensures
            r == self.0,
    {
        let Self(context) = self;
        context
    }
}

impl<C> From<C> for CloneOwnedWith<C> {
    fn from(context: C) -> (r: Self) {
        Self::new(context)
    }
}

impl<C> vstd::std_specs::convert::FromSpecImpl<C> for CloneOwnedWith<C> {
    open spec fn obeys_from_spec() -> bool {
        true
    }

    open spec fn from_spec(context: C) -> Self {
        CloneOwnedWith(context)
    }
}

/// Context which allows to provide dependency by *cloning*
/// if type of dependency implements [`Clone`]
/// and provider implements [`ProvideRef`](crate::ProvideRef)`<_>`.
#[derive(Debug, Default, Clone, Copy, PartialEq, Eq, PartialOrd, Ord, Hash)]
pub struct CloneRef;

impl<T> With<T> for CloneRef {
    type Output = CloneRefWith<T>;

    /// The composite is the nested context holding the dependency.
    open spec fn combines(self, dependency: T, output: CloneRefWith<T>) -> bool {
        output.0 == dependency
    }

    fn with(self, dependency: T) -> (r: CloneRefWith<T>) {
        dependency.into()
    }
}

/// Context which allows to provide dependency by *cloning*
/// if type of dependency implements [`Clone`]
/// and provider implements [`ProvideRefWith`](crate::with::ProvideRefWith)`<_, C>`.
#[derive(Debug, Default, Clone, Copy, PartialEq, Eq, PartialOrd, Ord, Hash)]
pub struct CloneRefWith<C>(pub C);

impl<C> CloneRefWith<C> {
    /// Creates self from provided context.
    pub fn new(context: C) -> (r: Self)
        ensures
            r.0 == context,
    {
        Self(context)
    }

    /// Returns inner context, consuming self.
    pub fn into_inner(self) -> (r: C)
        ensures
            r == self.0,
    {
        let Self(context) = self;
        context
    }
}

impl<C> From<C> for CloneRefWith<C> {
    fn from(context: C) -> (r: Self) {
        Self::new(context)
    }
}

impl<C> vstd::std_specs::convert::FromSpecImpl<C> for CloneRefWith<C> {
    open spec fn obeys_from_spec() -> bool {
        true
    }

    open spec fn from_spec(context: C) -> Self {
        CloneRefWith(context)
    }
}

} // verus!
