use core::marker::PhantomData;

use vstd::prelude::*;

use crate::with::With;

verus! {

/// Context which allows to provide dependency by *creating it from*
/// another dependency by *unique reference*.
///
/// This is possible if:
/// - pointer to another dependency of type `D` implements [`Into`]`<T>`,
/// - provider implements [`ProvideMut`](crate::ProvideMut)`<'_, D>`,
///
/// where `T` is the type of dependency to provide.
#[derive(Debug, PartialEq, Eq, PartialOrd, Ord, Hash)]
pub struct FromDependencyMut<D> {
    /// Marker for the dependency type this context speaks of.
    pub phantom: PhantomData<D>,
}

impl<D> FromDependencyMut<D> {
    /// Creates new from dependency context.
    pub fn new() -> (r: Self)
        ensures
            r == (FromDependencyMut::<D> { phantom: PhantomData }),
    {
        Self { phantom: PhantomData }
    }
}

impl<D> Clone for FromDependencyMut<D> {
    /// Every value of this context is the same marker.
    fn clone(&self) -> (r: Self)
        ensures
            r == *self,
    {
        FromDependencyMut { phantom: PhantomData }
    }
}

impl<D> Copy for FromDependencyMut<D> {}

impl<D> Default for FromDependencyMut<D> {
    fn default() -> (r: Self)
        ensures
            r == (FromDependencyMut::<D> { phantom: PhantomData }),
    {
        Self::new()
    }
}

/// Attach additional context to the current context.
impl<D, C> With<C> for FromDependencyMut<D> {
    type Output = FromDependencyMutWith<D, C>;

    /// The composite is the nested context holding the attached context.
    open spec fn combines(self, context: C, output: FromDependencyMutWith<D, C>) -> bool {
        output.context == context
    }

    /// Attaches additional context to the current context.
    fn with(self, context: C) -> (r: FromDependencyMutWith<D, C>) {
        FromDependencyMutWith::new(context)
    }
}

/// Context which allows to provide dependency by *creating it from*
/// another dependency by *unique reference*
/// which could be provided with additional context.
///
/// This is possible if:
/// - pointer to another dependency of type `D` implements [`Into`]`<T>`,
/// - provider implements [`ProvideMutWith`](crate::with::ProvideMutWith)`<'_, D, C>`,
///
/// where `T` is the type of dependency to provide.
#[derive(Debug, PartialEq, Eq, PartialOrd, Ord, Hash)]
pub struct FromDependencyMutWith<D, C> {
    /// Marker for the dependency type this context speaks of.
    pub phantom: PhantomData<D>,
    /// Inner context of the current context.
    pub context: C,
}

impl<D, C> FromDependencyMutWith<D, C> {
    /// Creates self from provided context.
    pub fn new(context: C) -> (r: Self)
        ensures
            r == (Self { phantom: PhantomData, context }),
    {
        let phantom = PhantomData;
        Self { phantom, context }
    }

    /// Returns inner context, consuming self.
    pub fn into_inner(self) -> (r: C)
        ensures
            r == self.context,
    {
        let Self { context, .. } = self;
        context
    }
}

impl<D, C, T> With<T> for FromDependencyMutWith<D, C> where C: With<T> {
    type Output = FromDependencyMutWith<D, C::Output>;

    /// The composite wraps whatever the inner context builds.
    open spec fn combines(
        self,
        dependency: T,
        output: FromDependencyMutWith<D, C::Output>,
    ) -> bool {
        self.context.combines(dependency, output.context)
    }

    /// Attaches additional context to the current context.
    fn with(self, dependency: T) -> (r: FromDependencyMutWith<D, C::Output>) {
        let context = self.into_inner();
        let context = context.with(dependency);
        FromDependencyMutWith::new(context)
    }
}

impl<D, C> Clone for FromDependencyMutWith<D, C> where C: Clone {
    /// The copy carries a clone of the inner context.
    fn clone(&self) -> (r: Self)
        ensures
            cloned::<C>(self.context, r.context),
    {
        FromDependencyMutWith { phantom: PhantomData, context: self.context.clone() }
    }
}

impl<D, C> Copy for FromDependencyMutWith<D, C> where C: Copy {}

impl<D, C> Default for FromDependencyMutWith<D, C> where C: Default {
    fn default() -> (r: Self)
        ensures
            call_ensures(<C as Default>::default, (), r.context),
    {
        let context = Default::default();
        Self::new(context)
    }
}

} // verus!
