//! Contexts which provide dependency by converting another dependency
//! the provider hands out.

pub use self::{
    by_mut::{FromDependencyMut, FromDependencyMutWith},
    by_ref::FromDependencyRefWith,
    owned::FromDependencyWith,
};

use vstd::prelude::*;

use crate::context::Empty;

mod by_mut;
mod by_ref;
mod owned;

verus! {

/// Context which allows to provide dependency by *creating it from*
/// another dependency by *value*.
///
/// This is possible if:
/// - type of another dependency `D` implements [`Into`]`<T>`,
/// - provider implements [`ProvideWith`](crate::with::ProvideWith)`<D, Empty>`,
///
/// where `T` is the type of dependency to provide.
pub type FromDependency<D> = FromDependencyWith<D, Empty>;

/// Context which allows to provide dependency by *creating it from*
/// another dependency by *shared reference*.
///
/// This is possible if:
/// - type of another dependency `D` implements [`Into`]`<T>`,
/// - provider implements [`ProvideRef`](crate::ProvideRef)`<'_, D>`,
///
/// where `T` is the type of dependency to provide.
pub type FromDependencyRef<D> = FromDependencyRefWith<D, Empty>;

} // verus!
