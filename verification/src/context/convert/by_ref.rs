use core::marker::PhantomData;

use vstd::prelude::*;

use crate::{context::Empty, with::With};

verus! {

impl<D> FromDependencyRefWith<D, Empty> {
    /// Creates self with empty context.
    pub fn new() -> (r: Self)
        ensures
            r.context == (),
    {
        Self::with(())
    }
}

/// Context which allows to provide dependency by *creating it from*
/// another dependency by *shared reference*
/// with additional context.
///
/// This is possible if:
/// - type of another dependency `D` implements [`Into`]`<T>`,
/// - provider implements [`ProvideRefWith`](crate::with::ProvideRefWith)`<'_, D, C>`,
///
/// where `T` is the type of dependency to provide.
#[derive(Debug, PartialEq, Eq, PartialOrd, Ord, Hash)]
pub struct FromDependencyRefWith<D, C> {
    /// Marker for the dependency type this context speaks of.
    pub phantom: PhantomData<D>,
    /// Inner context of the current context.
    pub context: C,
}

impl<D, C> FromDependencyRefWith<D, C> {
    /// Creates self with provided context.
    pub fn with(context: C) -> (r: Self)
        ensures
            r == (Self { phantom: PhantomData, context }),
    {
        let phantom = PhantomData;
        Self { phantom, context }
    }

    /// Returns inner context, consuming self.
    pub fn into_inner(self) -> (r: C)
        ensures
            r == self.context,
    {
        let Self { context, .. } = self;
        context
    }
}

impl<D, C, T> With<T> for FromDependencyRefWith<D, C> where C: With<T> {
    type Output = FromDependencyRefWith<D, C::Output>;

    /// The composite wraps whatever the inner context builds.
    open spec fn combines(
        self,
        dependency: T,
        output: FromDependencyRefWith<D, C::Output>,
    ) -> bool {
        self.context.combines(dependency, output.context)
    }

    /// Attaches additional context to the current context.
    fn with(self, dependency: T) -> (r: FromDependencyRefWith<D, C::Output>) {
        let context = self.into_inner();
        let context = context.with(dependency);
        FromDependencyRefWith::with(context)
    }
}

impl<D, C> Clone for FromDependencyRefWith<D, C> where C: Clone {
    /// The copy carries a clone of the inner context.
    fn clone(&self) -> (r: Self)
        ensures
            cloned::<C>(self.context, r.context),
    {
        FromDependencyRefWith { phantom: PhantomData, context: self.context.clone() }
    }
}

impl<D, C> Copy for FromDependencyRefWith<D, C> where C: Copy {}

impl<D, C> Default for FromDependencyRefWith<D, C> where C: Default {
    fn default() -> (r: Self)
        ensures
            call_ensures(<C as Default>::default, (), r.context),
    {
        let context = Default::default();
        Self::with(context)
    }
}

} // verus!
