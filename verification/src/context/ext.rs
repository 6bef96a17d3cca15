use vstd::prelude::*;

use super::{
    clone::{CloneDependencyMutWith, CloneDependencyRefWith, CloneDependencyWith},
    convert::{FromDependencyMutWith, FromDependencyRefWith, FromDependencyWith},
};

verus! {

/// Extension trait for *context adaptors*.
///
/// If you want to define adaptors for your type of context,
/// you should make new extension trait which derives from the current one.
pub trait Context: Sized {
    /// Allows to clone dependency
    /// after it was provided by *value* with `self` context.
    fn then_clone<D>(self) -> (r: CloneDependencyWith<D, Self>)
        ensures
            r.context == self,
    {
        CloneDependencyWith::with(self)
    }

    /// Allows to clone dependency
    /// after it was provided by *shared reference* with `self` context.
    fn then_clone_ref<D>(self) -> (r: CloneDependencyRefWith<D, Self>)
        ensures
            r.context == self,
    {
        CloneDependencyRefWith::new(self)
    }

    /// Allows to clone dependency
    /// after it was provided by *unique reference* with `self` context.
    fn then_clone_mut<D>(self) -> (r: CloneDependencyMutWith<D, Self>)
        ensures
            r.context == self,
    {
        CloneDependencyMutWith::with(self)
    }

    /// Allows to create dependency from another dependency
    /// after it was provided by *value* with `self` context.
    fn then_from<D>(self) -> (r: FromDependencyWith<D, Self>)
        ensures
            r.context == self,
    {
        FromDependencyWith::with(self)
    }

    /// Allows to create dependency from another dependency
    /// after it was provided by *shared reference* with `self` context.
    fn then_from_ref<D>(self) -> (r: FromDependencyRefWith<D, Self>)
        ensures
            r.context == self,
    {
        FromDependencyRefWith::with(self)
    }

    /// Allows to create dependency from another dependency
    /// after it was provided by *unique reference* with `self` context.
    fn then_from_mut<D>(self) -> (r: FromDependencyMutWith<D, Self>)
        ensures
            r.context == self,
    {
        FromDependencyMutWith::new(self)
    }
}

impl<T> Context for T {}

} // verus!
