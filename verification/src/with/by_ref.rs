use core::convert::Infallible;

use vstd::prelude::*;

use crate::{
    context::{
        clone::{CloneDependencyRef, CloneDependencyRefWith},
        convert::FromDependencyRefWith,
        CloneRef, CloneRefWith, Empty,
    },
    ProvideRef,
};

verus! {

/// Type of provider which provides dependency by *shared reference*,
/// but with additional context provided by the caller.
///
/// This trait is very similar to [`ProvideRef`](crate::ProvideRef) trait.
/// However, this trait allows to retrieve additional context provided by the
/// caller, so it is possible to *define many ways* of how dependency can be
/// provided.
///
/// The spec function [`ProvideRefWith::provides_ref_with`] relates the
/// provider and context to the values
/// [`ProvideRefWith::provide_ref_with`] may return.
pub trait ProvideRefWith<'me, T, C> {
    /// Which dependency values this provider may hand out under the given
    /// context. Unless an implementation says more, nothing is promised.
    open spec fn provides_ref_with(&'me self, context: C, dependency: T) -> bool {
        true
    }

    /// Provides dependency by *shared reference*
    /// with additional context provided by the caller.
    fn provide_ref_with(&'me self, context: C) -> (r: T)
        ensures
            self.provides_ref_with(context, r),
    ;
}

impl<'me, T, U> ProvideRefWith<'me, T, Empty> for U where U: ProvideRef<'me, T> {
    /// The empty context provides exactly as the provider does on its own.
    open spec fn provides_ref_with(&'me self, context: Empty, dependency: T) -> bool {
        self.provides_ref(dependency)
    }

    fn provide_ref_with(&'me self, _context: Empty) -> (r: T) {
        self.provide_ref()
    }
}

impl<'me, T, U> ProvideRefWith<'me, T, CloneRef> for U where
    T: Clone + 'me,
    U: ProvideRef<'me, &'me T>,
 {
    /// The dependency is cloned from a reference the provider hands out.
    open spec fn provides_ref_with(&'me self, context: CloneRef, dependency: T) -> bool {
        exists|source: &'me T|
            #[trigger] self.provides_ref(source) && cloned::<T>(*source, dependency)
    }

    fn provide_ref_with(&'me self, _context: CloneRef) -> (r: T) {
        let source = self.provide_ref();
        T::clone(source)
    }
}

impl<'me, T, U, C> ProvideRefWith<'me, T, CloneRefWith<C>> for U where
    T: Clone,
    U: ProvideRefWith<'me, T, C>,
 {
    /// The dependency is a clone of what the provider hands out by reference
    /// under the inner context.
    open spec fn provides_ref_with(&'me self, context: CloneRefWith<C>, dependency: T) -> bool {
        exists|provided: T|
            #[trigger] self.provides_ref_with(context.0, provided)
                && cloned::<T>(provided, dependency)
    }

    fn provide_ref_with(&'me self, context: CloneRefWith<C>) -> (r: T) {
        let context = context.into_inner();
        let provided = self.provide_ref_with(context);
        provided.clone()
    }
}

impl<'me, T, U> ProvideRefWith<'me, T, CloneDependencyRef<&'me T>> for U where
    T: Clone + 'me,
    U: ProvideRef<'me, &'me T>,
 {
    /// The dependency is cloned from a reference the provider hands out.
    open spec fn provides_ref_with(
        &'me self,
        context: CloneDependencyRef<&'me T>,
        dependency: T,
    ) -> bool {
        exists|source: &'me T|
            #[trigger] self.provides_ref(source) && cloned::<T>(*source, dependency)
    }

    fn provide_ref_with(&'me self, _context: CloneDependencyRef<&'me T>) -> (r: T) {
        let source = self.provide_ref();
        T::clone(source)
    }
}

impl<'me, T, U, C> ProvideRefWith<'me, T, CloneDependencyRefWith<&'me T, C>> for U where
    T: Clone + 'me,
    U: ProvideRefWith<'me, &'me T, C>,
 {
    /// The dependency is cloned from a reference the provider hands out
    /// under the inner context.
    open spec fn provides_ref_with(
        &'me self,
        context: CloneDependencyRefWith<&'me T, C>,
        dependency: T,
    ) -> bool {
        exists|source: &'me T|
            #[trigger] self.provides_ref_with(context.context, source)
                && cloned::<T>(*source, dependency)
    }

    fn provide_ref_with(&'me self, context: CloneDependencyRefWith<&'me T, C>) -> (r: T) {
        let context = context.into_inner();
        let source = self.provide_ref_with(context);
        T::clone(source)
    }
}

impl<'me, T, U, D, C> ProvideRefWith<'me, T, FromDependencyRefWith<D, C>> for U where
    U: ProvideRefWith<'me, D, C>,
    D: Into<T>,
 {
    /// Another dependency is provided by reference under the inner context
    /// and converted into the requested one.
    open spec fn provides_ref_with(
        &'me self,
        context: FromDependencyRefWith<D, C>,
        dependency: T,
    ) -> bool {
        exists|source: D|
            {
                &&& #[trigger] self.provides_ref_with(context.context, source)
                &&& call_ensures(<D as Into<T>>::into, (source,), dependency)
            }
    }

    fn provide_ref_with(&'me self, context: FromDependencyRefWith<D, C>) -> (r: T) {
        let context = context.into_inner();
        let source = self.provide_ref_with(context);
        source.into()
    }
}

/// Type of provider which can provide dependency by *shared reference*,
/// but with additional context provided by the caller, or fail.
///
/// This trait is very similar to [`TryProvideRef`](crate::TryProvideRef)
/// trait. However, this trait allows to retrieve additional context provided
/// by the caller, so it is possible to *define many ways* of how dependency
/// can be provided.
pub trait TryProvideRefWith<'me, T, C> {
    /// The type returned in the event of an error.
    type Error;

    /// Which outcomes a fallible provision by reference may have under the
    /// given context. Unless an implementation says more, nothing is
    /// promised.
    open spec fn try_provides_ref_with(&'me self, context: C, outcome: Result<T, Self::Error>) -> bool {
        true
    }

    /// Tries to provide dependency by *shared reference*
    /// with additional context provided by the caller on success.
    fn try_provide_ref_with(&'me self, context: C) -> (r: Result<T, Self::Error>)
        ensures
            self.try_provides_ref_with(context, r),
    ;
}

impl<'me, T, U, C> TryProvideRefWith<'me, T, C> for U where U: ProvideRefWith<'me, T, C> {
    type Error = Infallible;

    /// The provision always succeeds, with a dependency the underlying
    /// infallible provision could have returned.
    open spec fn try_provides_ref_with(
        &'me self,
        context: C,
        outcome: Result<T, Infallible>,
    ) -> bool {
        match outcome {
            Ok(dependency) => self.provides_ref_with(context, dependency),
            Err(_) => false,
        }
    }

    fn try_provide_ref_with(&'me self, context: C) -> (r: Result<T, Infallible>) {
        let provide_ref_with = self.provide_ref_with(context);
        Ok(provide_ref_with)
    }
}

} // verus!
