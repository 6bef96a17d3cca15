use core::convert::Infallible;

use vstd::prelude::*;

use crate::{
    context::{
        clone::{CloneDependencyMutWith, CloneDependencyRef, CloneDependencyRefWith},
        convert::{FromDependencyMut, FromDependencyMutWith, FromDependencyRefWith},
        Empty,
    },
    with::ProvideRefWith,
    ProvideMut, ProvideRef,
};

verus! {

/// Type of provider which provides dependency by *unique reference*,
/// but with additional context provided by the caller.
///
/// This trait is very similar to [`ProvideMut`](crate::ProvideMut) trait.
/// However, this trait allows to retrieve additional context provided by the
/// caller, so it is possible to *define many ways* of how dependency can be
/// provided.
///
/// The spec function [`ProvideMutWith::provides_mut_with`] relates the
/// provider, as it was when the provision began, and the context to the
/// values [`ProvideMutWith::provide_mut_with`] may return.
pub trait ProvideMutWith<'me, T, C> {
    /// Which dependency values this provider may hand out under the given
    /// context. Unless an implementation says more, nothing is promised.
    open spec fn provides_mut_with(&self, context: C, dependency: T) -> bool {
        true
    }

    /// How the provider, as it is left after the provision and the handed
    /// out dependency expire, relates to the provider as it was, the context
    /// and the dependency. Unless an implementation says more, nothing is
    /// promised.
    open spec fn provides_mut_with_final(&self, context: C, dependency: T, fin: &Self) -> bool {
        true
    }

    /// Provides dependency by *unique reference*
    /// with additional context provided by the caller.
    fn provide_mut_with(&'me mut self, context: C) -> (r: T)
        ensures
            (*old(self)).provides_mut_with(context, r),
            (*old(self)).provides_mut_with_final(context, r, &*final(self)),
    ;
}

impl<'me, T, U> ProvideMutWith<'me, T, Empty> for U where U: ProvideMut<'me, T> {
    /// The empty context provides exactly as the provider does on its own.
    open spec fn provides_mut_with(&self, context: Empty, dependency: T) -> bool {
        self.provides_mut(dependency)
    }

    /// The provider is left as its own provision leaves it.
    open spec fn provides_mut_with_final(
        &self,
        context: Empty,
        dependency: T,
        fin: &Self,
    ) -> bool {
        self.provides_mut_final(dependency, fin)
    }

    fn provide_mut_with(&'me mut self, _context: Empty) -> (r: T) {
        self.provide_mut()
    }
}

impl<'me, T, U, C> ProvideMutWith<'me, T, CloneDependencyMutWith<&'me mut T, C>> for U where
    T: Clone + 'me,
    U: ProvideMutWith<'me, &'me mut T, C>,
 {
    /// The dependency is cloned from a mutable reference the provider hands
    /// out under the inner context.
    open spec fn provides_mut_with(
        &self,
        context: CloneDependencyMutWith<&'me mut T, C>,
        dependency: T,
    ) -> bool {
        exists|source: &'me mut T|
            #[trigger] self.provides_mut_with(context.context, source)
                && cloned::<T>(*source, dependency)
    }

    /// The provider is left as the inner provision of the cloned source
    /// leaves it.
    open spec fn provides_mut_with_final(
        &self,
        context: CloneDependencyMutWith<&'me mut T, C>,
        dependency: T,
        fin: &Self,
    ) -> bool {
        exists|source: &'me mut T|
            #[trigger] self.provides_mut_with_final(context.context, source, fin)
    }

    fn provide_mut_with(&'me mut self, context: CloneDependencyMutWith<&'me mut T, C>) -> (r: T) {
        let context = context.into_inner();
        let source = self.provide_mut_with(context);
        T::clone(source)
    }
}

impl<'me, T, U> ProvideMutWith<'me, T, CloneDependencyRef<&'me T>> for U where
    T: Clone + 'me,
    U: ProvideRef<'me, &'me T>,
 {
    /// The dependency is cloned from a shared reference the provider hands
    /// out; the provider is borrowed uniquely but not changed.
    open spec fn provides_mut_with(
        &self,
        context: CloneDependencyRef<&'me T>,
        dependency: T,
    ) -> bool {
        exists|source: &'me T|
            #[trigger] self.provides_ref(source) && cloned::<T>(*source, dependency)
    }

    /// The provider is left unchanged.
    open spec fn provides_mut_with_final(
        &self,
        context: CloneDependencyRef<&'me T>,
        dependency: T,
        fin: &Self,
    ) -> bool {
        *fin == *self
    }

    fn provide_mut_with(&'me mut self, _context: CloneDependencyRef<&'me T>) -> (r: T) {
        let this: &'me Self = self;
        let source = this.provide_ref();
        T::clone(source)
    }
}

impl<'me, T, U, C> ProvideMutWith<'me, T, CloneDependencyRefWith<&'me T, C>> for U where
    T: Clone + 'me,
    U: ProvideRefWith<'me, &'me T, C>,
 {
    /// The dependency is cloned from a shared reference the provider hands
    /// out under the inner context; the provider is borrowed uniquely but
    /// not changed.
    open spec fn provides_mut_with(
        &self,
        context: CloneDependencyRefWith<&'me T, C>,
        dependency: T,
    ) -> bool {
        exists|source: &'me T|
            #[trigger] self.provides_ref_with(context.context, source)
                && cloned::<T>(*source, dependency)
    }

    /// The provider is left unchanged.
    open spec fn provides_mut_with_final(
        &self,
        context: CloneDependencyRefWith<&'me T, C>,
        dependency: T,
        fin: &Self,
    ) -> bool {
        *fin == *self
    }

    fn provide_mut_with(&'me mut self, context: CloneDependencyRefWith<&'me T, C>) -> (r: T) {
        let context = context.into_inner();
        let this: &'me Self = self;
        let source = this.provide_ref_with(context);
        T::clone(source)
    }
}

impl<'me, T, U, D> ProvideMutWith<'me, T, FromDependencyMut<D>> for U where
    U: ProvideMut<'me, D>,
    D: Into<T>,
 {
    /// Another dependency is provided by mutable reference and converted
    /// into the requested one.
    open spec fn provides_mut_with(&self, context: FromDependencyMut<D>, dependency: T) -> bool {
        exists|source: D|
            {
                &&& #[trigger] self.provides_mut(source)
                &&& call_ensures(<D as Into<T>>::into, (source,), dependency)
            }
    }

    /// The provider is left as its own provision of the converted source
    /// leaves it.
    open spec fn provides_mut_with_final(
        &self,
        context: FromDependencyMut<D>,
        dependency: T,
        fin: &Self,
    ) -> bool {
        exists|source: D| #[trigger] self.provides_mut_final(source, fin)
    }

    fn provide_mut_with(&'me mut self, _context: FromDependencyMut<D>) -> (r: T) {
        let source = self.provide_mut();
        source.into()
    }
}

impl<'me, T, U, D, C> ProvideMutWith<'me, T, FromDependencyMutWith<D, C>> for U where
    U: ProvideMutWith<'me, D, C>,
    D: Into<T>,
 {
    /// Another dependency is provided by mutable reference under the inner
    /// context and converted into the requested one.
    open spec fn provides_mut_with(
        &self,
        context: FromDependencyMutWith<D, C>,
        dependency: T,
    ) -> bool {
        exists|source: D|
            {
                &&& #[trigger] self.provides_mut_with(context.context, source)
                &&& call_ensures(<D as Into<T>>::into, (source,), dependency)
            }
    }

    /// The provider is left as the inner provision of the converted source
    /// leaves it.
    open spec fn provides_mut_with_final(
        &self,
        context: FromDependencyMutWith<D, C>,
        dependency: T,
        fin: &Self,
    ) -> bool {
        exists|source: D| #[trigger] self.provides_mut_with_final(context.context, source, fin)
    }

    fn provide_mut_with(&'me mut self, context: FromDependencyMutWith<D, C>) -> (r: T) {
        let context = context.into_inner();
        let source = self.provide_mut_with(context);
        source.into()
    }
}

impl<'me, T, U, D, C> ProvideMutWith<'me, T, FromDependencyRefWith<D, C>> for U where
    U: ProvideRefWith<'me, D, C>,
    D: Into<T>,
 {
    /// Another dependency is provided by shared reference under the inner
    /// context and converted into the requested one; the provider is
    /// borrowed uniquely but not changed.
    open spec fn provides_mut_with(
        &self,
        context: FromDependencyRefWith<D, C>,
        dependency: T,
    ) -> bool {
        exists|source: D|
            {
                &&& #[trigger] self.provides_ref_with(context.context, source)
                &&& call_ensures(<D as Into<T>>::into, (source,), dependency)
            }
    }

    /// The provider is left unchanged.
    open spec fn provides_mut_with_final(
        &self,
        context: FromDependencyRefWith<D, C>,
        dependency: T,
        fin: &Self,
    ) -> bool {
        *fin == *self
    }

    fn provide_mut_with(&'me mut self, context: FromDependencyRefWith<D, C>) -> (r: T) {
        let context = context.into_inner();
        let this: &'me Self = self;
        let source = this.provide_ref_with(context);
        source.into()
    }
}

/// Type of provider which can provide dependency by *unique reference*,
/// but with additional context provided by the caller, or fail.
///
/// This trait is very similar to [`TryProvideMut`](crate::TryProvideMut)
/// trait. However, this trait allows to retrieve additional context provided
/// by the caller, so it is possible to *define many ways* of how dependency
/// can be provided.
pub trait TryProvideMutWith<'me, T, C> {
    /// The type returned in the event of an error.
    type Error;

    /// Which outcomes a fallible provision by unique reference may have
    /// under the given context. Unless an implementation says more, nothing
    /// is promised.
    open spec fn try_provides_mut_with(&self, context: C, outcome: Result<T, Self::Error>) -> bool {
        true
    }

    /// How the provider, as it is left after the provision and the outcome
    /// expire, relates to the provider as it was, the context and the
    /// outcome. Unless an implementation says more, nothing is promised.
    open spec fn try_provides_mut_with_final(
        &self,
        context: C,
        outcome: Result<T, Self::Error>,
        fin: &Self,
    ) -> bool {
        true
    }

    /// Tries to provide dependency by *unique reference*
    /// with additional context provided by the caller on success.
    fn try_provide_mut_with(&'me mut self, context: C) -> (r: Result<T, Self::Error>)
        ensures
            (*old(self)).try_provides_mut_with(context, r),
            (*old(self)).try_provides_mut_with_final(context, r, &*final(self)),
    ;
}

impl<'me, T, U, C> TryProvideMutWith<'me, T, C> for U where U: ProvideMutWith<'me, T, C> {
    type Error = Infallible;

    /// The provision always succeeds, with a dependency the underlying
    /// infallible provision could have returned.
    open spec fn try_provides_mut_with(
        &self,
        context: C,
        outcome: Result<T, Infallible>,
    ) -> bool {
        match outcome {
            Ok(dependency) => (*self).provides_mut_with(context, dependency),
            Err(_) => false,
        }
    }

    /// The provider is left as the underlying infallible provision leaves it.
    open spec fn try_provides_mut_with_final(
        &self,
        context: C,
        outcome: Result<T, Infallible>,
        fin: &Self,
    ) -> bool {
        match outcome {
            Ok(dependency) => (*self).provides_mut_with_final(context, dependency, fin),
            Err(_) => false,
        }
    }

    fn try_provide_mut_with(&'me mut self, context: C) -> (r: Result<T, Infallible>) {
        let provide_mut_with = self.provide_mut_with(context);
        Ok(provide_mut_with)
    }
}

} // verus!
