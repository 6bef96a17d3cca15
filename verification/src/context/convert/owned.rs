use core::marker::PhantomData;

use vstd::prelude::*;

use crate::{
    context::Empty,
    with::{ProvideWith, With},
};

verus! {

impl<D> FromDependencyWith<D, Empty> {
    /// Creates self with empty context.
    pub fn new() -> (r: Self)
        ensures
            r.context == (),
    {
        Self::with(())
    }
}

/// Context which allows to provide dependency by *creating it from*
/// another dependency by *value*
/// with additional context.
///
/// This is possible if:
/// - type of another dependency `D` implements [`Into`]`<T>`,
/// - provider implements [`ProvideWith`](crate::with::ProvideWith)`<D, C>`,
///
/// where `T` is the type of dependency to provide.
#[derive(Debug, PartialEq, Eq, PartialOrd, Ord, Hash)]
pub struct FromDependencyWith<D, C> {
    /// Marker for the dependency type this context speaks of.
    pub phantom: PhantomData<D>,
    /// Inner context of the current context.
    pub context: C,
}

impl<D, C> FromDependencyWith<D, C> {
    /// Creates self with provided context.
    pub fn with(context: C) -> (r: Self)
        ensures
            r == (Self { phantom: PhantomData, context }),
    {
        let phantom = PhantomData;
        Self { phantom, context }
    }

    /// Returns inner context, consuming self.
    pub fn into_inner(self) -> (r: C)
        ensures
            r == self.context,
    {
        let Self { context, .. } = self;
        context
    }
}

impl<D, C, T> With<T> for FromDependencyWith<D, C> where C: With<T> {
    type Output = FromDependencyWith<D, C::Output>;

    /// The composite wraps whatever the inner context builds.
    open spec fn combines(self, dependency: T, output: FromDependencyWith<D, C::Output>) -> bool {
        self.context.combines(dependency, output.context)
    }

    /// Attaches additional context to the current context.
    fn with(self, dependency: T) -> (r: FromDependencyWith<D, C::Output>) {
        let context = self.into_inner();
        let context = context.with(dependency);
        FromDependencyWith::with(context)
    }
}

impl<D, C> Clone for FromDependencyWith<D, C> where C: Clone {
    /// The copy carries a clone of the inner context.
    fn clone(&self) -> (r: Self)
        ensures
            cloned::<C>(self.context, r.context),
    {
        FromDependencyWith { phantom: PhantomData, context: self.context.clone() }
    }
}

impl<D, C> Copy for FromDependencyWith<D, C> where C: Copy {}

impl<D, C> Default for FromDependencyWith<D, C> where C: Default {
    fn default() -> (r: Self)
        ensures
            call_ensures(<C as Default>::default, (), r.context),
    {
        let context = Default::default();
        Self::with(context)
    }
}

impl<T, U, D, C> ProvideWith<T, FromDependencyWith<D, C>> for U where
    U: ProvideWith<D, C>,
    D: Into<T>,
 {
    type Remainder = <U as ProvideWith<D, C>>::Remainder;

    /// Another dependency is provided by value under the inner context and
    /// converted into the requested one; the remainder is whatever the inner
    /// provision left behind.
    open spec fn provides_with(
        self,
        context: FromDependencyWith<D, C>,
        dependency: T,
        remainder: <U as ProvideWith<D, C>>::Remainder,
    ) -> bool {
        exists|source: D|
            {
                &&& #[trigger] self.provides_with(context.context, source, remainder)
                &&& call_ensures(<D as Into<T>>::into, (source,), dependency)
            }
    }

    fn provide_with(
        self,
        context: FromDependencyWith<D, C>,
    ) -> (r: (T, <U as ProvideWith<D, C>>::Remainder)) {
        let context = context.into_inner();
        let (source, remainder) = self.provide_with(context);
        let dependency = source.into();
        (dependency, remainder)
    }
}

} // verus!
