//! The liveness flag and the wake-ups, as this crate relies on them.
//!
//! A wake-up is `mio::SetReadiness::set_readiness` on the setter that belongs
//! to the other half's `mio::Registration`. The flag is a shared
//! `AtomicBool`. Both are shared between threads, so no contract here says
//! what a call finds there. What is stated, without proof, is which
//! registration a setter belongs to and what was handed to it, what a flag
//! holds when it is made and what was stored to it through a handle, that a
//! clone of an `Arc` is the same shared value, and which calls cannot unwind.

use vstd::prelude::*;
use std::sync::atomic::AtomicBool;
use std::sync::Arc;
use crate::protocol::Wake;

verus! {

/// `mio::Registration`: what a poll loop registers. Opaque here.
#[verifier::external_type_specification]
#[verifier::external_body]
pub struct ExRegistration(mio::Registration);

/// `mio::SetReadiness`: the handle that raises the readiness of one
/// registration. Opaque here.
#[verifier::external_type_specification]
#[verifier::external_body]
pub struct ExSetReadiness(mio::SetReadiness);

/// `std::io::Error`: why a wake-up failed. Opaque here.
#[verifier::external_type_specification]
#[verifier::external_body]
pub struct ExIoError(std::io::Error);

/// The registration whose readiness the setter raises.
pub uninterp spec fn target_of(setter: mio::SetReadiness) -> mio::Registration;

/// Every wake-up that was handed to `set_readiness` through this setter,
/// oldest first, whether the call then succeeded or not.
pub uninterp spec fn handed(setter: mio::SetReadiness) -> Seq<Wake>;

/// `mio::Registration::new2`: a registration for a poll loop, and the setter
/// that raises the readiness of this registration. Nothing has been handed to
/// a new setter yet.
pub assume_specification[ mio::Registration::new2 ]() -> (pair: (
    mio::Registration,
    mio::SetReadiness,
))
    ensures
        target_of(pair.1) == pair.0,
        handed(pair.1).len() == 0,
;

/// `mio::SetReadiness::set_readiness`, with `mio::Ready::readable`,
/// `mio::Ready::writable` or `mio::Ready::all` as the readiness: raises that
/// readiness on the registration the setter belongs to. The setter stays
/// with its registration. The call fails when the poll loop cannot be woken,
/// and with one of these three it does not unwind.
#[verifier::external_body]
pub(crate) fn raise(setter: &mut mio::SetReadiness, wake: Wake) -> (raised: Result<
    (),
    std::io::Error,
>)
    ensures
        handed(*final(setter)) == handed(*old(setter)).push(wake),
        target_of(*final(setter)) == target_of(*old(setter)),
    opens_invariants none
    no_unwind
{
    let ready = match wake {
        Wake::Readable => mio::Ready::readable(),
        Wake::Writable => mio::Ready::writable(),
        Wake::All => mio::Ready::all(),
    };
    setter.set_readiness(ready)
}

/// What the flag held when it was made. What it holds later is up to whoever
/// stores to it.
pub uninterp spec fn made_with(flag: AtomicBool) -> bool;

/// Every value that was stored to the flag through this handle, oldest
/// first. A handle that is cloned from another starts with the other's
/// history and goes its own way from there.
pub uninterp spec fn stored(flag: AtomicBool) -> Seq<bool>;

/// `AtomicBool::new`: a flag that holds `value` to begin with and to which
/// nothing has been stored yet.
#[verifier::external_body]
pub(crate) fn flag_with(value: bool) -> (flag: AtomicBool)
    ensures
        made_with(flag) == value,
        stored(flag).len() == 0,
{
    AtomicBool::new(value)
}

/// `Arc::clone`: a second handle on the same shared value.
#[verifier::external_body]
pub(crate) fn share<T>(shared: &Arc<T>) -> (other: Arc<T>)
    ensures
        other == *shared,
{
    shared.clone()
}

/// `AtomicBool::store`, sequentially consistent, on the flag behind the
/// handle: `value` is one more value stored through this handle, and the flag
/// is still the one that was made. A store with this ordering does not
/// unwind, which a destructor has to know.
#[verifier::external_body]
pub(crate) fn store_flag(handle: &mut Arc<AtomicBool>, value: bool)
    ensures
        stored(**final(handle)) == stored(**old(handle)).push(value),
        made_with(**final(handle)) == made_with(**old(handle)),
    opens_invariants none
    no_unwind
{
    handle.store(value, std::sync::atomic::Ordering::SeqCst)
}

/// `std::sync::atomic::fence`, sequentially consistent. It does not unwind.
#[verifier::external_body]
pub(crate) fn full_fence()
    opens_invariants none
    no_unwind
{
    std::sync::atomic::fence(std::sync::atomic::Ordering::SeqCst)
}

/// A new liveness flag, made to read "both halves are there", with nothing
/// stored to it yet.
pub(crate) fn new_flag() -> (flag: Arc<AtomicBool>)
    ensures
        made_with(*flag),
        stored(*flag) == Seq::<bool>::empty(),
{
    let flag = Arc::new(flag_with(true));
    assert(stored(*flag) =~= Seq::<bool>::empty());
    flag
}

/// Whether the flag reads "both halves are there" at the moment of the call.
/// The other half may clear the flag at any time, so the answer is whatever
/// the load finds and nothing is promised of it.
pub(crate) fn peer_is_open(flag: &AtomicBool) -> bool {
    flag.load(std::sync::atomic::Ordering::SeqCst)
}

/// Makes the flag read "a half is gone": stores `false` through the handle.
pub(crate) fn mark_closed(handle: &mut Arc<AtomicBool>)
    ensures
        stored(**final(handle)) == stored(**old(handle)).push(false),
        made_with(**final(handle)) == made_with(**old(handle)),
    opens_invariants none
    no_unwind
{
    store_flag(handle, false)
}

} // verus!
