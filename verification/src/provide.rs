//! Providers which hand out a dependency by value, shared or unique reference.

pub use self::{
    by_mut::{ProvideMut, TryProvideMut},
    by_ref::{ProvideRef, TryProvideRef},
    owned::{Provide, TryProvide},
};

mod by_mut;
mod by_ref;
mod owned;
