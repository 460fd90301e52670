use vstd::prelude::*;
use crate::control::{appended_one, CallEvent};

verus! {

/// How many times the kernel-object reference `fd` has been released in
/// the call log `log`.
pub open spec fn release_count(log: Seq<CallEvent>, fd: i32) -> nat
    decreases log.len(),
{
    if log.len() == 0 {
        0
    } else {
        release_count(log.drop_last(), fd) + (
        if log.last() matches CallEvent::Released { fd: f } && f == fd {
            1nat
        } else {
            0nat
        })
    }
}

/// Recording one more call releases a reference exactly when that call is
/// its release, and never otherwise. Every operation of the handle
/// records exactly one call, and only `release` — which consumes the
/// handle, so it can be called at most once — records a release: each
/// constructed handle releases its kernel-object reference exactly once,
/// however many control or read operations were performed on it.
pub proof fn lemma_appended_one_release_count(l0: Seq<CallEvent>, l1: Seq<CallEvent>, fd: i32)
    requires
        appended_one(l0, l1),
    ensures
        release_count(l1, fd) == release_count(l0, fd) + (
        if l1.last() matches CallEvent::Released { fd: f } && f == fd {
            1nat
        } else {
            0nat
        }),
{
    assert(l1.len() > 0);
}

} // verus!
