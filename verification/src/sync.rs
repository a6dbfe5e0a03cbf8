//! Contracts of the `Arc` operations that the device teardown relies on.
use std::sync::Arc;
use vstd::prelude::*;

verus! {

/// `Arc::clone`: another pointer to the same allocation, so the pointee is
/// the same value.
#[verifier::external_body]
pub(crate) fn arc_clone<T>(a: &Arc<T>) -> (r: Arc<T>)
    ensures
        *r == **a,
{
    Arc::clone(a)
}

/// `Arc::strong_count`: how many `Arc` pointers share the allocation. The
/// count depends on every other holder, so only its lower bound is stated:
/// `a` itself is one of them.
#[verifier::external_body]
pub(crate) fn arc_strong_count<T>(a: &Arc<T>) -> (n: usize)
    ensures
        n >= 1,
{
    Arc::strong_count(a)
}

/// `Arc::try_unwrap`: the inner value when `a` is the only strong pointer,
/// else `a` handed back. Which of the two comes back depends on the other
/// holders and is not stated.
#[verifier::external_body]
pub(crate) fn arc_try_unwrap<T>(a: Arc<T>) -> (r: Result<T, Arc<T>>)
    ensures
        match r {
            Ok(t) => t == *a,
            Err(b) => *b == *a,
        },
{
    Arc::try_unwrap(a)
}

} // verus!
