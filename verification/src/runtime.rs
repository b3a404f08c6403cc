//! Work in the context of the asynchronous runtime.
use vstd::prelude::*;

verus! {

/// A handle to a runtime of `tokio`, which this library only carries.
#[verifier::external_type_specification]
#[verifier::external_body]
pub struct ExHandle(tokio::runtime::Handle);

/// The guard of `tokio` that leaves a runtime's context when it is dropped.
#[verifier::external_type_specification]
#[verifier::external_body]
pub struct ExEnterGuard<'a>(tokio::runtime::EnterGuard<'a>);

/// The runtime whose context a guard keeps entered. A guard is taken for the one that a call
/// made: it does not keep the runtime itself.
pub uninterp spec fn entered(guard: tokio::runtime::EnterGuard<'_>) -> tokio::runtime::Handle;

/// `tokio::runtime::Handle::enter`, which enters the context of a runtime until the guard
/// that it returns is dropped.
///
/// The contract claims that the guard keeps the context of this runtime. It panics in a
/// thread whose local values are already destroyed, or if as many contexts are entered as a
/// `usize` counts.
pub assume_specification[ tokio::runtime::Handle::enter ](
    handle: &tokio::runtime::Handle,
) -> (r: tokio::runtime::EnterGuard<'_>)
    ensures
        entered(r) == *handle,
;

/// Calls `f` once, in the context of the runtime, which must have been started. The guard
/// that `f` is lent keeps that context until `f` returns.
pub fn enter_context(
    handle: Option<&tokio::runtime::Handle>,
    f: impl FnOnce(&tokio::runtime::EnterGuard<'_>),
)
    requires
        handle is Some,
        forall|guard: tokio::runtime::EnterGuard<'_>| #[trigger]
            entered(guard) == *handle->Some_0 ==> f.requires((&guard,)),
    ensures
        exists|guard: tokio::runtime::EnterGuard<'_>| #[trigger]
            entered(guard) == *handle->Some_0 && f.ensures((&guard,), ()),
{
    let guard = handle.unwrap().enter();
    f(&guard)
}

} // verus!
