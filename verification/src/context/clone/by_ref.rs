use core::marker::PhantomData;

use vstd::prelude::*;

use crate::with::With;

verus! {

/// Context which allows to provide dependency by *cloning* from *shared
/// reference*.
///
/// This is possible if:
/// - type of dependency to provide `T` implements [`Clone`],
/// - provider implements [`ProvideRef`](crate::ProvideRef)`<'_, &T>`.
#[derive(Debug, PartialEq, Eq, PartialOrd, Ord, Hash)]
pub struct CloneDependencyRef<D> {
    /// Marker for the dependency type this context speaks of.
    pub phantom: PhantomData<D>,
}

impl<D> CloneDependencyRef<D> {
    /// Creates new clone dependency context.
    pub fn new() -> (r: Self)
        ensures
            r == (CloneDependencyRef::<D> { phantom: PhantomData }),
    {
        Self { phantom: PhantomData }
    }
}

impl<D> Clone for CloneDependencyRef<D> {
    /// Every value of this context is the same marker.
    fn clone(&self) -> (r: Self)
        ensures
            r == *self,
    {
        CloneDependencyRef { phantom: PhantomData }
    }
}

impl<D> Copy for CloneDependencyRef<D> {}

impl<D> Default for CloneDependencyRef<D> {
    fn default() -> (r: Self)
        ensures
            r == (CloneDependencyRef::<D> { phantom: PhantomData }),
    {
        Self::new()
    }
}

/// Attach additional context to the current context.
impl<D, C> With<C> for CloneDependencyRef<D> {
    type Output = CloneDependencyRefWith<D, C>;

    /// The composite is the nested context holding the attached context.
    open spec fn combines(self, context: C, output: CloneDependencyRefWith<D, C>) -> bool {
        output.context == context
    }

    /// Attaches additional context to the current context.
    fn with(self, context: C) -> (r: CloneDependencyRefWith<D, C>) {
        CloneDependencyRefWith::new(context)
    }
}

/// Context which allows to provide dependency by *cloning* from *shared
/// reference* which could be provided with additional context.
///
/// This is possible if:
/// - type of dependency to provide `T` implements [`Clone`],
/// - provider implements [`ProvideRefWith`](crate::with::ProvideRefWith)`<'_, &T, C>`.
#[derive(Debug, PartialEq, Eq, PartialOrd, Ord, Hash)]
pub struct CloneDependencyRefWith<D, C> {
    /// Marker for the dependency type this context speaks of.
    pub phantom: PhantomData<D>,
    /// Inner context of the current context.
    pub context: C,
}

impl<D, C> CloneDependencyRefWith<D, C> {
    /// Creates self from provided context.
    pub fn new(context: C) -> (r: Self)
        ensures
            r == (Self { phantom: PhantomData, context }),
    {
        let phantom = PhantomData;
        Self { phantom, context }
    }

    /// Returns inner context, consuming self.
    pub fn into_inner(self) -> (r: C)
        ensures
            r == self.context,
    {
        let Self { context, .. } = self;
        context
    }
}

impl<D, C, T> With<T> for CloneDependencyRefWith<D, C> where C: With<T> {
    type Output = CloneDependencyRefWith<D, C::Output>;

    /// The composite wraps whatever the inner context builds.
    open spec fn combines(
        self,
        dependency: T,
        output: CloneDependencyRefWith<D, C::Output>,
    ) -> bool {
        self.context.combines(dependency, output.context)
    }

    /// Attaches additional context to the current context.
    fn with(self, dependency: T) -> (r: CloneDependencyRefWith<D, C::Output>) {
        let context = self.into_inner();
        let context = context.with(dependency);
        CloneDependencyRefWith::new(context)
    }
}

impl<D, C> Clone for CloneDependencyRefWith<D, C> where C: Clone {
    /// The copy carries a clone of the inner context.
    fn clone(&self) -> (r: Self)
        ensures
            cloned::<C>(self.context, r.context),
    {
        CloneDependencyRefWith { phantom: PhantomData, context: self.context.clone() }
    }
}

impl<D, C> Copy for CloneDependencyRefWith<D, C> where C: Copy {}

impl<D, C> Default for CloneDependencyRefWith<D, C> where C: Default {
    fn default() -> (r: Self)
        ensures
            call_ensures(<C as Default>::default, (), r.context),
    {
        let context = Default::default();
        Self::new(context)
    }
}

} // verus!
