use core::convert::Infallible;

use vstd::prelude::*;

verus! {

/// Type of provider which provides dependency by *value*.
///
/// This trait can be interpreted as an extension of [`Into`] trait
/// but with the ability to return remaining part of the provider to be used
/// later or in chain to retrieve more dependencies.
///
/// The spec function [`Provide::provides`] relates a provider to the
/// dependency and remainder values its [`Provide::provide`] may return.
pub trait Provide<T>: Sized {
    /// Remaining part of the provider after providing dependency by value.
    type Remainder;

    /// Which pairs of dependency and remainder this provider may hand out.
    /// Unless an implementation says more, nothing is promised.
    open spec fn provides(self, dependency: T, remainder: Self::Remainder) -> bool {
        true
    }

    /// Provides dependency by *value*, also returning
    /// [remaining part](Provide::Remainder) of the provider.
    fn provide(self) -> (r: (T, Self::Remainder))
        ensures
            self.provides(r.0, r.1),
    ;
}

impl<T, U> Provide<T> for U where U: Into<T> {
    type Remainder = ();

    /// The dependency is a possible result of converting the provider into `T`;
    /// nothing of the provider remains.
    open spec fn provides(self, dependency: T, remainder: ()) -> bool {
        call_ensures(<U as Into<T>>::into, (self,), dependency)
    }

    fn provide(self) -> (r: (T, ())) {
        let dependency = self.into();
        (dependency, ())
    }
}

/// Type of provider which can provide dependency by *value* or fail.
///
/// This trait can be interpreted as an extension of [`TryInto`] trait
/// but with the ability to return remaining part of the provider on success
/// to be used later or in chain to retrieve more dependencies.
pub trait TryProvide<T>: Sized {
    /// Remaining part of the provider after providing dependency by value.
    type Remainder;

    /// The type returned in the event of an error.
    type Error;

    /// Which outcomes a fallible provision by value may have.
    /// Unless an implementation says more, nothing is promised.
    open spec fn try_provides(self, outcome: Result<(T, Self::Remainder), Self::Error>) -> bool {
        true
    }

    /// Tries to provide dependency by *value*, also returning
    /// [remaining part](TryProvide::Remainder) of the provider on success.
    fn try_provide(self) -> (r: Result<(T, Self::Remainder), Self::Error>)
        ensures
            self.try_provides(r),
    ;
}

impl<T, U> TryProvide<T> for U where U: Provide<T> {
    type Remainder = U::Remainder;

    type Error = Infallible;

    /// The provision always succeeds, with a dependency and remainder
    /// the underlying infallible provision could have returned.
    open spec fn try_provides(self, outcome: Result<(T, U::Remainder), Infallible>) -> bool {
        match outcome {
            Ok((dependency, remainder)) => self.provides(dependency, remainder),
            Err(_) => false,
        }
    }

    fn try_provide(self) -> (r: Result<(T, U::Remainder), Infallible>) {
        let provide = self.provide();
        Ok(provide)
    }
}

} // verus!
