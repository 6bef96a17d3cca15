use core::marker::PhantomData;

use vstd::prelude::*;

use crate::{
    context::Empty,
    with::{ProvideWith, With},
};

verus! {

impl<D> CloneDependencyWith<D, Empty> {
    /// Creates self with empty context.
    pub fn new() -> (r: Self)
        ensures
            r.context == (),
    {
        Self::with(())
    }
}

/// Context which allows to provide dependency by *cloning* a *value*
/// with additional context.
///
/// This is possible if:
/// - type of dependency `T` implements [`Clone`],
/// - provider implements [`ProvideWith`](crate::with::ProvideWith)`<T, C>`.
#[derive(Debug, PartialEq, Eq, PartialOrd, Ord, Hash)]
pub struct CloneDependencyWith<D, C> {
    /// Marker for the dependency type this context speaks of.
    pub phantom: PhantomData<D>,
    /// Inner context of the current context.
    pub context: C,
}

impl<D, C> CloneDependencyWith<D, C> {
    /// Creates self with provided context.
    pub fn with(context: C) -> (r: Self)
        ensures
            r == (Self { phantom: PhantomData, context }),
    {
        let phantom = PhantomData;
        Self { phantom, context }
    }

    /// Returns inner context, consuming self.
    pub fn into_inner(self) -> (r: C)
        ensures
            r == self.context,
    {
        let Self { context, .. } = self;
        context
    }
}

impl<D, C, T> With<T> for CloneDependencyWith<D, C> where C: With<T> {
    type Output = CloneDependencyWith<D, C::Output>;

    /// The composite wraps whatever the inner context builds.
    open spec fn combines(self, dependency: T, output: CloneDependencyWith<D, C::Output>) -> bool {
        self.context.combines(dependency, output.context)
    }

    /// Attaches additional context to the current context.
    fn with(self, dependency: T) -> (r: CloneDependencyWith<D, C::Output>) {
        let context = self.into_inner();
        let context = context.with(dependency);
        CloneDependencyWith::with(context)
    }
}

impl<D, C> Clone for CloneDependencyWith<D, C> where C: Clone {
    /// The copy carries a clone of the inner context.
    fn clone(&self) -> (r: Self)
        ensures
            cloned::<C>(self.context, r.context),
    {
        CloneDependencyWith { phantom: PhantomData, context: self.context.clone() }
    }
}

impl<D, C> Copy for CloneDependencyWith<D, C> where C: Copy {}

impl<D, C> Default for CloneDependencyWith<D, C> where C: Default {
    fn default() -> (r: Self)
        ensures
            call_ensures(<C as Default>::default, (), r.context),
    {
        let context = Default::default();
        Self::with(context)
    }
}

impl<T, U, C> ProvideWith<T, CloneDependencyWith<T, C>> for U where
    T: Clone,
    U: ProvideWith<T, C>,
    <U as ProvideWith<T, C>>::Remainder: With<T>,
 {
    type Remainder = <<U as ProvideWith<T, C>>::Remainder as With<T>>::Output;

    /// The dependency itself is provided by value under the inner context;
    /// a clone of it is handed out, while the provided value is fed back
    /// into the remainder.
    open spec fn provides_with(
        self,
        context: CloneDependencyWith<T, C>,
        dependency: T,
        remainder: <<U as ProvideWith<T, C>>::Remainder as With<T>>::Output,
    ) -> bool {
        exists|provided: T, bare: <U as ProvideWith<T, C>>::Remainder|
            {
                &&& #[trigger] self.provides_with(context.context, provided, bare)
                &&& cloned::<T>(provided, dependency)
                &&& #[trigger] bare.combines(provided, remainder)
            }
    }

    fn provide_with(
        self,
        context: CloneDependencyWith<T, C>,
    ) -> (r: (T, <<U as ProvideWith<T, C>>::Remainder as With<T>>::Output)) {
        let context = context.into_inner();
        let (provided, bare) = self.provide_with(context);
        let dependency = provided.clone();
        let remainder = bare.with(provided);
        (dependency, remainder)
    }
}

} // verus!
