use core::convert::Infallible;

use vstd::prelude::*;

use crate::{
    context::{CloneOwned, CloneOwnedWith, CloneRef, CloneRefWith, Empty},
    with::{ProvideRefWith, With},
    Provide, ProvideRef,
};

verus! {

/// Type of provider which provides dependency by *value*,
/// but with additional context provided by the caller.
///
/// This trait is very similar to [`Provide`] trait.
/// However, this trait allows to retrieve additional context provided by the
/// caller, so it is possible to *define many ways* of how dependency can be
/// provided.
///
/// The spec function [`ProvideWith::provides_with`] relates the provider and
/// context to the dependency and remainder values
/// [`ProvideWith::provide_with`] may return.
pub trait ProvideWith<T, C>: Sized {
    /// Remaining part of the provider after providing dependency by value.
    type Remainder;

    /// Which pairs of dependency and remainder this provider may hand out
    /// under the given context. Unless an implementation says more, nothing
    /// is promised.
    open spec fn provides_with(self, context: C, dependency: T, remainder: Self::Remainder) -> bool {
        true
    }

    /// Provides dependency by *value*
    /// with additional context provided by the caller,
    /// also returning [remaining part](ProvideWith::Remainder) of the provider.
    #[must_use]
    fn provide_with(self, context: C) -> (r: (T, Self::Remainder))
        ensures
            self.provides_with(context, r.0, r.1),
    ;
}

impl<T, U> ProvideWith<T, Empty> for U where U: Provide<T> {
    type Remainder = U::Remainder;

    /// The empty context provides exactly as the provider does on its own.
    open spec fn provides_with(self, context: Empty, dependency: T, remainder: U::Remainder) -> bool {
        self.provides(dependency, remainder)
    }

    fn provide_with(self, _context: Empty) -> (r: (T, U::Remainder)) {
        self.provide()
    }
}

impl<T, U> ProvideWith<T, CloneOwned> for U where
    T: Clone,
    U: Provide<T>,
    U::Remainder: With<T>,
 {
    type Remainder = <U::Remainder as With<T>>::Output;

    /// The dependency is provided by value; a clone of it is fed back into
    /// the remainder.
    open spec fn provides_with(
        self,
        context: CloneOwned,
        dependency: T,
        remainder: <U::Remainder as With<T>>::Output,
    ) -> bool {
        exists|bare: U::Remainder, duplicate: T|
            {
                &&& #[trigger] self.provides(dependency, bare)
                &&& cloned::<T>(dependency, duplicate)
                &&& #[trigger] bare.combines(duplicate, remainder)
            }
    }

    fn provide_with(self, _context: CloneOwned) -> (r: (T, <U::Remainder as With<T>>::Output)) {
        let (dependency, remainder) = self.provide();
        let remainder = remainder.with(dependency.clone());
        (dependency, remainder)
    }
}

impl<T, U, C> ProvideWith<T, CloneOwnedWith<C>> for U where
    T: Clone,
    U: ProvideWith<T, C>,
    U::Remainder: With<T>,
 {
    type Remainder = <<U as ProvideWith<T, C>>::Remainder as With<T>>::Output;

    /// The dependency is provided by value under the inner context; a clone
    /// of it is fed back into the remainder.
    open spec fn provides_with(
        self,
        context: CloneOwnedWith<C>,
        dependency: T,
        remainder: <<U as ProvideWith<T, C>>::Remainder as With<T>>::Output,
    ) -> bool {
        exists|bare: <U as ProvideWith<T, C>>::Remainder, duplicate: T|
            {
                &&& #[trigger] self.provides_with(context.0, dependency, bare)
                &&& cloned::<T>(dependency, duplicate)
                &&& #[trigger] bare.combines(duplicate, remainder)
            }
    }

    fn provide_with(
        self,
        context: CloneOwnedWith<C>,
    ) -> (r: (T, <<U as ProvideWith<T, C>>::Remainder as With<T>>::Output)) {
        let context = context.into_inner();
        let (dependency, remainder) = self.provide_with(context);
        let remainder = remainder.with(dependency.clone());
        (dependency, remainder)
    }
}

impl<T, U> ProvideWith<T, CloneRef> for U where
    T: Clone,
    U: for<'any> ProvideRef<'any, &'any T>,
 {
    type Remainder = U;

    /// The dependency is cloned from a reference the provider hands out;
    /// the provider itself is returned unchanged as the remainder.
    open spec fn provides_with(self, context: CloneRef, dependency: T, remainder: U) -> bool {
        &&& remainder == self
        &&& exists|source: &T| #[trigger] self.provides_ref(source) && cloned::<T>(*source, dependency)
    }

    fn provide_with(self, _context: CloneRef) -> (r: (T, U)) {
        let dependency = {
            let source = self.provide_ref();
            T::clone(source)
        };
        (dependency, self)
    }
}

impl<T, U, C> ProvideWith<T, CloneRefWith<C>> for U where
    T: Clone,
    U: for<'any> ProvideRefWith<'any, T, C>,
 {
    type Remainder = U;

    /// The dependency is a clone of what the provider hands out by reference
    /// under the inner context; the provider itself is returned unchanged as
    /// the remainder.
    open spec fn provides_with(self, context: CloneRefWith<C>, dependency: T, remainder: U) -> bool {
        &&& remainder == self
        &&& exists|provided: T|
            #[trigger] self.provides_ref_with(context.0, provided) && cloned::<T>(provided, dependency)
    }

    fn provide_with(self, context: CloneRefWith<C>) -> (r: (T, U)) {
        let context = context.into_inner();
        let dependency = {
            let provided = self.provide_ref_with(context);
            provided.clone()
        };
        (dependency, self)
    }
}

/// Type of provider which can provide dependency by *value*,
/// but with additional context provided by the caller, or fail.
///
/// This trait is very similar to [`TryProvide`](crate::TryProvide) trait.
/// However, this trait allows to retrieve additional context provided by the
/// caller, so it is possible to *define many ways* of how dependency can be
/// provided.
pub trait TryProvideWith<T, C>: Sized {
    /// Remaining part of the provider after providing dependency by value.
    type Remainder;

    /// The type returned in the event of an error.
    type Error;

    /// Which outcomes a fallible provision by value may have under the given
    /// context. Unless an implementation says more, nothing is promised.
    open spec fn try_provides_with(
        self,
        context: C,
        outcome: Result<(T, Self::Remainder), Self::Error>,
    ) -> bool {
        true
    }

    /// Tries to provide dependency by *value*
    /// with additional context provided by the caller, also returning
    /// [remaining part](TryProvideWith::Remainder) of the provider on success.
    fn try_provide_with(self, context: C) -> (r: Result<(T, Self::Remainder), Self::Error>)
        ensures
            self.try_provides_with(context, r),
    ;
}

impl<T, U, C> TryProvideWith<T, C> for U where U: ProvideWith<T, C> {
    type Remainder = U::Remainder;

    type Error = Infallible;

    /// The provision always succeeds, with a dependency and remainder
    /// the underlying infallible provision could have returned.
    open spec fn try_provides_with(
        self,
        context: C,
        outcome: Result<(T, U::Remainder), Infallible>,
    ) -> bool {
        match outcome {
            Ok((dependency, remainder)) => self.provides_with(context, dependency, remainder),
            Err(_) => false,
        }
    }

    fn try_provide_with(self, context: C) -> (r: Result<(T, U::Remainder), Infallible>) {
        let provide_with = self.provide_with(context);
        Ok(provide_with)
    }
}

} // verus!
