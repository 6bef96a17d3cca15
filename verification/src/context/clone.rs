//! Contexts which provide dependency by cloning it out of what the provider
//! hands out.

pub use self::{
    by_mut::CloneDependencyMutWith,
    by_ref::{CloneDependencyRef, CloneDependencyRefWith},
    owned::CloneDependencyWith,
};

use vstd::prelude::*;

use crate::context::Empty;

mod by_mut;
mod by_ref;
mod owned;

verus! {

/// Context which allows to provide dependency by *cloning* a *value*.
///
/// This is possible if:
/// - type of dependency `T` implements [`Clone`],
/// - provider implements [`ProvideWith`](crate::with::ProvideWith)`<T, Empty>`.
pub type CloneDependency<D> = CloneDependencyWith<D, Empty>;

/// Context which allows to provide dependency by *cloning* from *unique
/// reference*.
///
/// This is possible if:
/// - type of dependency to provide `T` implements [`Clone`],
/// - provider implements [`ProvideMut`](crate::ProvideMut)`<'_, &mut T>`.
pub type CloneDependencyMut<D> = CloneDependencyMutWith<D, Empty>;

} // verus!
