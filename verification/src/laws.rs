//! Laws which relate the context-aware provisions to the plain ones.
//!
//! Each law states, for one kind of context, which dependency values a
//! provision under that context may hand out, in terms of the provider's own
//! provision relations.

use vstd::prelude::*;

use crate::{
    context::{
        clone::CloneDependencyRef,
        convert::{FromDependency, FromDependencyWith},
        CloneOwned, CloneRef, CloneRefWith, Empty,
    },
    with::{ProvideMutWith, ProvideRefWith, ProvideWith, With},
    Provide, ProvideRef,
};

use vstd::std_specs::convert::IntoSpec;

verus! {

/// Under the empty context, a provision by value hands out exactly what the
/// provider hands out on its own.
pub proof fn empty_context_provides_as_direct<T, U: Provide<T>>(
    provider: U,
    dependency: T,
    remainder: U::Remainder,
)
    ensures
        <U as ProvideWith<T, Empty>>::provides_with(provider, (), dependency, remainder)
            <==> provider.provides(dependency, remainder),
{
}

/// A provider which is itself convertible into the dependency provides, under
/// the empty context, a possible result of that conversion, and leaves the
/// unit value as the remainder.
pub proof fn direct_provision_converts<T, U: Into<T>>(
    provider: U,
    dependency: T,
    remainder: (),
)
    ensures
        <U as ProvideWith<T, Empty>>::provides_with(provider, (), dependency, remainder)
            <==> call_ensures(<U as Into<T>>::into, (provider,), dependency),
{
}

/// Under the clone-by-reference context, a provision by shared reference
/// hands out a clone of some value the provider hands out by reference; the
/// provider is only borrowed, never consumed.
pub proof fn clone_ref_context_clones_source<'me, T: Clone + 'me, U: ProvideRef<'me, &'me T>>(
    provider: &'me U,
    dependency: T,
)
    ensures
        <U as ProvideRefWith<'me, T, CloneRef>>::provides_ref_with(provider, CloneRef, dependency)
            <==> exists|source: &'me T|
                #[trigger] provider.provides_ref(source) && cloned::<T>(*source, dependency),
{
}

/// Under the clone-by-value context, on a provider whose provision leaves
/// nothing behind, the dependency is handed out unchanged while the remainder
/// holds a clone of it, ready to be provided again.
pub proof fn clone_owned_keeps_clone_in_remainder<T: Clone, U>(
    provider: U,
    dependency: T,
    remainder: T,
) where U: Provide<T, Remainder = ()>
    ensures
        <U as ProvideWith<T, CloneOwned>>::provides_with(provider, CloneOwned, dependency, remainder)
            <==> (provider.provides(dependency, ()) && cloned::<T>(dependency, remainder)),
{
    if provider.provides(dependency, ()) && cloned::<T>(dependency, remainder) {
        let bare: () = ();
        assert(bare.combines(remainder, remainder));
    }
}

/// Under the convert-from-dependency context, the provision hands out a
/// possible conversion of another dependency the provider would have handed
/// out by value, with the same remainder.
pub proof fn from_dependency_converts<T, D: Into<T>, U: Provide<D>>(
    provider: U,
    context: FromDependency<D>,
    dependency: T,
    remainder: U::Remainder,
)
    ensures
        <U as ProvideWith<T, FromDependencyWith<D, Empty>>>::provides_with(
            provider,
            context,
            dependency,
            remainder,
        ) <==> exists|source: D|
            #[trigger] provider.provides(source, remainder)
                && call_ensures(<D as Into<T>>::into, (source,), dependency),
{
    if <U as ProvideWith<T, FromDependencyWith<D, Empty>>>::provides_with(
        provider,
        context,
        dependency,
        remainder,
    ) {
        let source = choose|source: D|
            #[trigger] <U as ProvideWith<D, Empty>>::provides_with(
                provider,
                context.context,
                source,
                remainder,
            ) && call_ensures(<D as Into<T>>::into, (source,), dependency);
        assert(provider.provides(source, remainder)
            && call_ensures(<D as Into<T>>::into, (source,), dependency));
    }
    if exists|source: D|
        #[trigger] provider.provides(source, remainder)
            && call_ensures(<D as Into<T>>::into, (source,), dependency) {
        let source = choose|source: D|
            #[trigger] provider.provides(source, remainder)
                && call_ensures(<D as Into<T>>::into, (source,), dependency);
        assert(<U as ProvideWith<D, Empty>>::provides_with(
            provider,
            context.context,
            source,
            remainder,
        ) && call_ensures(<D as Into<T>>::into, (source,), dependency));
    }
}

/// Where the conversion into the dependency type obeys its specification,
/// the convert-from-dependency context hands out exactly the specified
/// conversion of a dependency the provider would have handed out by value.
pub proof fn from_dependency_follows_into_spec<T, D: Into<T>, U: Provide<D>>(
    provider: U,
    context: FromDependency<D>,
    dependency: T,
    remainder: U::Remainder,
)
    requires
        <U as ProvideWith<T, FromDependencyWith<D, Empty>>>::provides_with(
            provider,
            context,
            dependency,
            remainder,
        ),
        <D as vstd::std_specs::convert::IntoSpec<T>>::obeys_into_spec(),
    ensures
        exists|source: D|
            #[trigger] provider.provides(source, remainder)
                && dependency == source.into_spec(),
{
    let source = choose|source: D|
        #[trigger] provider.provides(source, remainder)
            && call_ensures(<D as Into<T>>::into, (source,), dependency);
    assert(provider.provides(source, remainder) && dependency == source.into_spec());
}

/// Cloning through a unique borrow with a clone-by-reference context leaves
/// the provider exactly as it was: the unique borrow is only used to read.
pub proof fn clone_through_unique_borrow_preserves_provider<'me, T, U>(
    provider: &U,
    context: CloneDependencyRef<&'me T>,
    dependency: T,
    fin: &U,
) where T: Clone + 'me, U: ProvideRef<'me, &'me T>
    ensures
        <U as ProvideMutWith<'me, T, CloneDependencyRef<&'me T>>>::provides_mut_with_final(
            provider,
            context,
            dependency,
            fin,
        ) <==> *fin == *provider,
{
}

/// Nesting a clone context around an inner by-reference context hands out a
/// clone of whatever the inner context would have handed out.
pub proof fn clone_after_inner_provision<'me, T: Clone, C, U: ProvideRefWith<'me, T, C>>(
    provider: &'me U,
    context: CloneRefWith<C>,
    dependency: T,
)
    ensures
        <U as ProvideRefWith<'me, T, CloneRefWith<C>>>::provides_ref_with(
            provider,
            context,
            dependency,
        ) <==> exists|inner: T|
            #[trigger] <U as ProvideRefWith<'me, T, C>>::provides_ref_with(
                provider,
                context.0,
                inner,
            ) && cloned::<T>(inner, dependency),
{
}

} // verus!
