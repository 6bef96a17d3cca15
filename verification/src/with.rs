//! Define different ways to provide some dependency.

pub use self::{
    by_mut::{ProvideMutWith, TryProvideMutWith},
    by_ref::{ProvideRefWith, TryProvideRefWith},
    owned::{ProvideWith, TryProvideWith},
};

use vstd::prelude::*;

mod by_mut;
mod by_ref;
mod owned;

verus! {

/// Type of provider which can be created from provided dependency.
///
/// This trait can be used to emulate extension of self type with dependency
/// type, where the [output](With::Output) is product type consisting of self
/// and provided dependency.
///
/// The spec function [`With::combines`] relates the self and dependency
/// values to the composite values [`With::with`] may build from them.
pub trait With<T>: Sized {
    /// Type of new provider with provided dependency.
    type Output;

    /// Which composite values may arise from extending self with the
    /// provided dependency. Unless an implementation says more, nothing is
    /// promised.
    open spec fn combines(self, dependency: T, output: Self::Output) -> bool {
        true
    }

    /// Creates new provider from the self and provided dependency.
    #[must_use]
    fn with(self, dependency: T) -> (r: Self::Output)
        ensures
            self.combines(dependency, r),
    ;
}

impl<T> With<T> for () {
    type Output = T;

    /// The empty provider is the left identity of composition: the result is
    /// the dependency itself.
    open spec fn combines(self, dependency: T, output: T) -> bool {
        output == dependency
    }

    fn with(self, dependency: T) -> (r: T) {
        dependency
    }
}

} // verus!
