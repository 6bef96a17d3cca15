//! Zero cost dependency provision in safe Rust, with verified contracts.
//!
//! This crate defines two key concepts:
//! - **providers** are types which provide some dependency by value, shared or
//!   unique reference;
//! - **context** types represent different ways to provide some dependency.
//!
//! Every provision method carries a relational contract: a spec function of the
//! provider trait describes which results a provision may return, and each
//! implementation fixes that relation for its own provision strategy.

pub use crate::{
    context::Context,
    provide::{Provide, ProvideMut, ProvideRef, TryProvide, TryProvideMut, TryProvideRef},
    with::With,
};

pub mod context;
pub mod deref;
pub mod laws;
pub mod with;

mod provide;
