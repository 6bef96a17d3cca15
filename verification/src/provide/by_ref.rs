use core::convert::Infallible;

use vstd::prelude::*;

verus! {

/// Type of provider which provides dependency by reference.
///
/// This trait can be interpreted as an extension of [`AsRef`] trait
/// but with the ability to return not only plain references.
///
/// The spec function [`ProvideRef::provides_ref`] relates a provider to the
/// values its [`ProvideRef::provide_ref`] may return.
pub trait ProvideRef<'me, T> {
    /// Which dependency values this provider may hand out by reference.
    /// Unless an implementation says more, nothing is promised.
    open spec fn provides_ref(&'me self, dependency: T) -> bool {
        true
    }

    /// Provides dependency by reference.
    fn provide_ref(&'me self) -> (r: T)
        ensures
            self.provides_ref(r),
    ;
}

impl<'me, 'other, T, U> ProvideRef<'me, &'me T> for &'other U where
    T: ?Sized,
    U: ProvideRef<'me, &'me T> + ?Sized,
 {
    /// A shared reference to a provider hands out whatever the provider
    /// hands out.
    open spec fn provides_ref(&'me self, dependency: &'me T) -> bool {
        U::provides_ref(*self, dependency)
    }

    fn provide_ref(&'me self) -> (r: &'me T) {
        U::provide_ref(*self)
    }
}

impl<'me> ProvideRef<'me, &'me str> for str {
    /// A string slice hands out itself.
    open spec fn provides_ref(&'me self, dependency: &'me str) -> bool {
        dependency == self
    }

    fn provide_ref(&'me self) -> (r: &'me str) {
        self
    }
}

impl<'me, T> ProvideRef<'me, &'me Vec<T>> for Vec<T> {
    /// A vector hands out itself.
    open spec fn provides_ref(&'me self, dependency: &'me Vec<T>) -> bool {
        dependency == self
    }

    fn provide_ref(&'me self) -> (r: &'me Vec<T>) {
        self
    }
}

impl<'me, T> ProvideRef<'me, &'me [T]> for Vec<T> {
    /// A vector hands out a slice of its elements.
    open spec fn provides_ref(&'me self, dependency: &'me [T]) -> bool {
        dependency@ == self@
    }

    fn provide_ref(&'me self) -> (r: &'me [T]) {
        self.as_slice()
    }
}

impl<'me, T, const N: usize> ProvideRef<'me, &'me [T]> for [T; N] {
    /// An array hands out a slice of its elements.
    open spec fn provides_ref(&'me self, dependency: &'me [T]) -> bool {
        dependency@ == self@
    }

    fn provide_ref(&'me self) -> (r: &'me [T]) {
        self.as_slice()
    }
}

/// Type of provider which can provide dependency by reference or fail.
///
/// This trait can be interpreted as an extension of [`AsRef`] trait
/// but with the ability to return not only plain references.
pub trait TryProvideRef<'me, T> {
    /// The type returned in the event of an error.
    type Error;

    /// Which outcomes a fallible provision by reference may have.
    /// Unless an implementation says more, nothing is promised.
    open spec fn try_provides_ref(&'me self, outcome: Result<T, Self::Error>) -> bool {
        true
    }

    /// Tries to provide dependency by reference.
    fn try_provide_ref(&'me self) -> (r: Result<T, Self::Error>)
        ensures
            self.try_provides_ref(r),
    ;
}

impl<'me, T, U> TryProvideRef<'me, T> for U where U: ProvideRef<'me, T> {
    type Error = Infallible;

    /// The provision always succeeds, with a dependency the underlying
    /// infallible provision could have returned.
    open spec fn try_provides_ref(&'me self, outcome: Result<T, Infallible>) -> bool {
        match outcome {
            Ok(dependency) => self.provides_ref(dependency),
            Err(_) => false,
        }
    }

    fn try_provide_ref(&'me self) -> (r: Result<T, Infallible>) {
        let provide_ref = self.provide_ref();
        Ok(provide_ref)
    }
}

} // verus!
