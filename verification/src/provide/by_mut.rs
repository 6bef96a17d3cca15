use core::convert::Infallible;

use vstd::prelude::*;

verus! {

/// Type of provider which provides dependency by mutable reference.
///
/// This trait can be interpreted as an extension of [`AsMut`] trait
/// but with the ability to return not only plain mutable references.
///
/// The spec function [`ProvideMut::provides_mut`] relates the provider, as it
/// was when the provision began, to the values its
/// [`ProvideMut::provide_mut`] may return; the spec function
/// [`ProvideMut::provides_mut_final`] also relates them to the provider as it
/// is left once the borrow expires.
pub trait ProvideMut<'me, T> {
    /// Which dependency values this provider may hand out by mutable
    /// reference. Unless an implementation says more, nothing is promised.
    open spec fn provides_mut(&self, dependency: T) -> bool {
        true
    }

    /// How the provider, as it is left after the provision and the handed
    /// out dependency expire, relates to the provider as it was and to the
    /// dependency. Unless an implementation says more, nothing is promised.
    open spec fn provides_mut_final(&self, dependency: T, fin: &Self) -> bool {
        true
    }

    /// Provides dependency by mutable reference.
    fn provide_mut(&'me mut self) -> (r: T)
        ensures
            (*old(self)).provides_mut(r),
            (*old(self)).provides_mut_final(r, &*final(self)),
    ;
}

impl<'me, 'other, T, U> ProvideMut<'me, &'me mut T> for &'other mut U where
    T: ?Sized,
    U: ProvideMut<'me, &'me mut T> + ?Sized,
 {
    /// A unique reference to a provider hands out whatever the provider
    /// hands out.
    open spec fn provides_mut(&self, dependency: &'me mut T) -> bool {
        U::provides_mut(*self, dependency)
    }

    fn provide_mut(&'me mut self) -> (r: &'me mut T) {
        U::provide_mut(*self)
    }
}

/// Both references are left holding the same vector.
pub open spec fn left_as_same_vec<T>(dependency: &Vec<T>, provider: &Vec<T>) -> bool {
    *dependency == *provider
}

/// The slice and the vector are left holding the same elements.
pub open spec fn left_with_same_elements<T>(dependency: &[T], provider: &Vec<T>) -> bool {
    dependency@ == provider@
}

impl<'me, T> ProvideMut<'me, &'me mut Vec<T>> for Vec<T> {
    /// A vector hands out a mutable reference to itself.
    open spec fn provides_mut(&self, dependency: &'me mut Vec<T>) -> bool {
        *dependency == *self
    }

    /// Writes through the handed out reference land in the vector itself.
    fn provide_mut(&'me mut self) -> (r: &'me mut Vec<T>)
        ensures
            left_as_same_vec(&*final(r), &*final(self)),
    {
        self
    }
}

impl<'me, T> ProvideMut<'me, &'me mut [T]> for Vec<T> {
    /// A vector hands out a mutable slice of its elements.
    open spec fn provides_mut(&self, dependency: &'me mut [T]) -> bool {
        dependency@ == self@
    }

    /// Writes through the handed out slice land in the vector's elements.
    fn provide_mut(&'me mut self) -> (r: &'me mut [T])
        ensures
            left_with_same_elements(&*final(r), &*final(self)),
    {
        self.as_mut_slice()
    }
}

impl<'me, T, const N: usize> ProvideMut<'me, &'me mut [T]> for [T; N] {
    /// An array hands out a mutable slice of its elements.
    open spec fn provides_mut(&self, dependency: &'me mut [T]) -> bool {
        dependency@ == self@
    }

    /// Writes through the handed out slice land in the array's elements.
    fn provide_mut(&'me mut self) -> (r: &'me mut [T])
        ensures
            final(r)@ == final(self)@,
    {
        self
    }
}

/// Type of provider which can provide dependency by mutable reference or fail.
///
/// This trait can be interpreted as an extension of [`AsMut`] trait
/// but with the ability to return not only plain mutable references.
pub trait TryProvideMut<'me, T> {
    /// The type returned in the event of an error.
    type Error;

    /// Which outcomes a fallible provision by mutable reference may have.
    /// Unless an implementation says more, nothing is promised.
    open spec fn try_provides_mut(&self, outcome: Result<T, Self::Error>) -> bool {
        true
    }

    /// How the provider, as it is left after the provision and the outcome
    /// expire, relates to the provider as it was and to the outcome. Unless
    /// an implementation says more, nothing is promised.
    open spec fn try_provides_mut_final(
        &self,
        outcome: Result<T, Self::Error>,
        fin: &Self,
    ) -> bool {
        true
    }

    /// Tries to provide dependency by mutable reference.
    fn try_provide_mut(&'me mut self) -> (r: Result<T, Self::Error>)
        ensures
            (*old(self)).try_provides_mut(r),
            (*old(self)).try_provides_mut_final(r, &*final(self)),
    ;
}

impl<'me, T, U> TryProvideMut<'me, T> for U where U: ProvideMut<'me, T> {
    type Error = Infallible;

    /// The provision always succeeds, with a dependency the underlying
    /// infallible provision could have returned.
    open spec fn try_provides_mut(&self, outcome: Result<T, Infallible>) -> bool {
        match outcome {
            Ok(dependency) => self.provides_mut(dependency),
            Err(_) => false,
        }
    }

    /// The provider is left as the underlying infallible provision leaves it.
    open spec fn try_provides_mut_final(&self, outcome: Result<T, Infallible>, fin: &Self) -> bool {
        match outcome {
            Ok(dependency) => self.provides_mut_final(dependency, fin),
            Err(_) => false,
        }
    }

    fn try_provide_mut(&'me mut self) -> (r: Result<T, Infallible>) {
        let provide_mut = self.provide_mut();
        Ok(provide_mut)
    }
}

} // verus!
