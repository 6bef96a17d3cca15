use std::convert::Infallible;

use provide::{
    context::{
        clone::{CloneDependency, CloneDependencyRef},
        convert::{FromDependency, FromDependencyRef},
        CloneOwned, CloneOwnedWith, CloneRef, CloneRefWith,
    },
    deref::DerefWrapper,
    with::{ProvideMutWith, ProvideRefWith, ProvideWith, TryProvideWith},
    Context, TryProvide, TryProvideMut, TryProvideRef, With,
};

#[test]
fn empty_context_equals_direct_conversion() {
    let provider = 41;
    let (dependency, remainder): (i64, _) = provider.provide_with(FromDependency::<i32>::new());
    assert_eq!(dependency, i64::from(41));
    assert_eq!(remainder, ());
}

#[test]
fn clone_ref_leaves_provider_usable() {
    let provider = vec![1, 2, 3];
    let dependency: Vec<i32> = provider.provide_ref_with(CloneRef);
    assert_eq!(dependency, provider);
}

#[test]
fn clone_ref_by_value_returns_provider_as_remainder() {
    let provider = vec![1, 2, 3];
    let (dependency, provider): (Vec<i32>, _) = provider.provide_with(CloneRef);
    assert_eq!(dependency, provider);
}

#[test]
fn clone_owned_remainder_provides_again() {
    let provider = 5;
    let (dependency, remainder): (i32, i32) = provider.provide_with(CloneOwned);
    assert_eq!(dependency, 5);
    let (again, _): (i32, _) = remainder.provide_with(());
    assert_eq!(again, dependency);
}

#[test]
fn clone_owned_with_inner_context() {
    let provider = 5;
    let (dependency, remainder): (i32, i32) = provider.provide_with(CloneOwnedWith::new(()));
    assert_eq!(dependency, 5);
    assert_eq!(remainder, 5);
}

#[test]
fn clone_after_convert_matches_converted_clone() {
    let provider = "hello";
    let converted: String = provider.provide_ref_with(FromDependencyRef::<&str>::new());
    let cloned: String =
        provider.provide_ref_with(CloneRefWith::new(FromDependencyRef::<&str>::new()));
    assert_eq!(cloned, converted.clone());
}

#[test]
fn mutation_through_provided_slice_is_visible() {
    let mut provider = vec![1, 2, 3];
    {
        let dependency: &mut [i32] = provider.provide_mut_with(());
        dependency[0] = 9;
    }
    assert_eq!(provider, vec![9, 2, 3]);
}

#[test]
fn clone_through_unique_borrow_leaves_provider() {
    let mut provider = vec![1, 2, 3];
    let dependency: Vec<i32> = provider.provide_mut_with(CloneDependencyRef::new());
    assert_eq!(dependency, vec![1, 2, 3]);
    assert_eq!(provider, vec![1, 2, 3]);
}

#[test]
fn clone_context_on_empty_vector() {
    let provider: Vec<i32> = vec![];
    let dependency: Vec<i32> = provider.provide_ref_with(CloneDependencyRef::new());
    assert_eq!(dependency, provider);
    assert!(dependency.is_empty());
}

#[test]
fn with_on_unit_returns_dependency() {
    assert_eq!(().with(7), 7);
}

#[test]
fn with_on_markers_nests_dependency() {
    assert_eq!(CloneOwned.with(7), CloneOwnedWith::new(7));
    assert_eq!(CloneRef.with(8), CloneRefWith::new(8));
}

#[test]
fn context_combinators_build_nested_contexts() {
    assert_eq!(().then_clone::<i32>(), CloneDependency::<i32>::new());
    assert_eq!(().then_from::<i32>(), FromDependency::<i32>::new());
    assert_eq!(
        ().then_from_ref::<&str>().context,
        FromDependencyRef::<&str>::new().into_inner(),
    );
}

#[test]
fn combinator_context_provides_like_named_one() {
    let provider = vec![1, 2, 3, 4, 5];
    let (dependency, provider): (Vec<i32>, _) =
        provider.provide_with(().then_clone::<Vec<i32>>());
    assert_eq!(dependency, provider);
}

#[test]
fn deref_wrapper_passes_value_through() {
    let wrapper = DerefWrapper::new(5);
    assert_eq!(*wrapper, 5);
    assert_eq!(wrapper.into_inner(), 5);
    let wrapper: DerefWrapper<i32> = 7.into();
    assert_eq!(wrapper.0, 7);

    let mut wrapper = DerefWrapper::new(5);
    *wrapper = 6;
    assert_eq!(wrapper.into_inner(), 6);
}

#[test]
fn try_provisions_always_succeed() {
    let outcome: Result<(i32, ()), Infallible> = 1.try_provide();
    assert_eq!(outcome, Ok((1, ())));

    let provider = "hello";
    let outcome: Result<&str, Infallible> = provider.try_provide_ref();
    assert_eq!(outcome, Ok("hello"));

    let mut provider = vec![1, 2];
    let outcome: Result<&mut [i32], Infallible> = provider.try_provide_mut();
    assert_eq!(outcome, Ok(vec![1, 2].as_mut_slice()));

    let outcome: Result<(i64, ()), Infallible> =
        2.try_provide_with(FromDependency::<i32>::new());
    assert_eq!(outcome, Ok((2, ())));
}

#[test]
fn into_inner_returns_attached_context() {
    assert_eq!(CloneOwnedWith::new(3).into_inner(), 3);
    assert_eq!(CloneRefWith::new(4).into_inner(), 4);
    assert_eq!(FromDependency::<i32>::new().into_inner(), ());
    assert_eq!(CloneDependency::<i32>::new().into_inner(), ());
}
