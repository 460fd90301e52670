use vstd::prelude::*;
use crate::desc::EventDesc;

verus! {

/// The closed set of out-of-band requests that can be issued against an
/// already-open kernel object. Each request of the handle is one variant;
/// adding a new control operation means adding a variant here, not a new
/// dispatch mechanism.
#[derive(Clone, Copy, Debug, PartialEq, Eq, Structural)]
pub enum ControlOp {
    /// Let the counter begin incrementing.
    Enable,
    /// Stop the counter; its value is retained.
    Disable,
    /// Set the counter value to 0.
    Reset,
    /// Add `count` to the overflow-countdown register; when that register
    /// reaches 0 the kernel disables the event. A `count` of 0 is undefined
    /// at the kernel boundary and is never issued.
    Refresh { count: usize },
    /// Set the sampling/overflow period.
    Period { interval: usize },
    /// Redirect sample output to the kernel object named by `target`;
    /// a `target` of -1 stops producing sample records.
    SetOutput { target: i32 },
    /// Pause (`true`) or resume (`false`) writes to the sample ring buffer
    /// without stopping the counter.
    PauseOutput { pause: bool },
    /// Atomically change the monitored event's configuration.
    ModifyAttributes { desc: EventDesc },
}

/// One raw call made against the kernel, together with the value the call
/// returned. A layer records its calls in order, so contracts can say
/// which calls an operation issued and how the operation's result follows
/// from what came back.
#[derive(Clone, Copy, Debug, PartialEq, Eq, Structural)]
pub enum CallEvent {
    /// The open call: one attempt to set up monitoring for `desc` on the
    /// given target, yielding the kernel-object reference `ret`, or the
    /// invalid-reference sentinel -1.
    Opened { desc: EventDesc, pid: i32, cpu: i32, group_fd: i32, ret: i32 },
    /// A control call against the object `fd`, returning `ret`
    /// (-1 denotes failure).
    Controlled { fd: i32, op: ControlOp, ret: i32 },
    /// The identifier query against `fd`: the call returned `ret`
    /// (-1 denotes failure) and wrote the identifier `id`.
    IdQueried { fd: i32, ret: i32, id: usize },
    /// A read of the current counter value of `fd`: the call returned
    /// `value`, where -1 denotes failure.
    CounterRead { fd: i32, value: isize },
    /// The release of the kernel-object reference `fd`, tearing the
    /// kernel object down.
    Released { fd: i32 },
}

/// The value a control-style call returned, as an unbounded integer so one
/// spec covers every event shape. A release returns nothing; it is mapped
/// to 0, which no contract relies on.
pub open spec fn ret_of(ev: CallEvent) -> int {
    match ev {
        CallEvent::Opened { ret, .. } => ret as int,
        CallEvent::Controlled { ret, .. } => ret as int,
        CallEvent::IdQueried { ret, .. } => ret as int,
        CallEvent::CounterRead { value, .. } => value as int,
        CallEvent::Released { .. } => 0,
    }
}

/// The identifier an identifier query wrote; 0 for every other event.
pub open spec fn id_of(ev: CallEvent) -> usize {
    match ev {
        CallEvent::IdQueried { id, .. } => id,
        _ => 0,
    }
}

/// The counter value a read returned; 0 for every other event.
pub open spec fn read_value_of(ev: CallEvent) -> isize {
    match ev {
        CallEvent::CounterRead { value, .. } => value,
        _ => 0,
    }
}

/// `l1` is `l0` with exactly one more call recorded at the end: the calls
/// already made are untouched.
pub open spec fn appended_one(l0: Seq<CallEvent>, l1: Seq<CallEvent>) -> bool {
    l1.len() == l0.len() + 1 && l1.drop_last() == l0
}

/// Pushing one event appends exactly that event.
pub proof fn lemma_push_appends_one(l0: Seq<CallEvent>, ev: CallEvent)
    ensures
        appended_one(l0, l0.push(ev)),
        l0.push(ev).last() == ev,
{
    assert(l0.push(ev).drop_last() =~= l0);
}

/// The raw call surface the handle depends on but does not own: one open
/// call, one control call, the identifier query, the in-band read, and the
/// release of the reference. An implementation performs the calls against
/// the kernel (or stands in for it) and records each call it makes, in
/// order, in its log.
///
/// Nothing is assumed about the values the calls return — the kernel may
/// answer anything — only that each method makes exactly one call and
/// records it faithfully.
pub trait ControlLayer: Sized {
    /// The calls made through this layer so far, in order. A layer that
    /// does not model its own record may leave the default, under which
    /// nothing is known of what it issued.
    open spec fn log(&self) -> Seq<CallEvent> {
        Seq::empty()
    }

    /// Issue the open call for `desc` against the given target process,
    /// CPU and group, with no flags, returning the new kernel-object
    /// reference or the invalid-reference sentinel -1.
    fn open_call(&mut self, desc: &EventDesc, pid: i32, cpu: i32, group_fd: i32) -> (ret: i32)
        ensures
            final(self).log() == old(self).log().push(
                (CallEvent::Opened { desc: *desc, pid, cpu, group_fd, ret }),
            ),
    ;

    /// Issue one control call against `fd`, returning the kernel's result
    /// (-1 denotes failure). A refresh of 0 is undefined behavior at the
    /// kernel boundary, so it must never reach this call.
    fn control_call(&mut self, fd: i32, op: ControlOp) -> (ret: i32)
        requires
            op matches ControlOp::Refresh { count } ==> count >= 1,
        ensures
            final(self).log() == old(self).log().push(
                (CallEvent::Controlled { fd, op, ret }),
            ),
    ;

    /// Query the kernel-assigned event identifier of `fd`. Returns the
    /// call's result (-1 denotes failure) paired with the identifier the
    /// call wrote.
    fn id_call(&mut self, fd: i32) -> (r: (i32, usize))
        ensures
            final(self).log() == old(self).log().push(
                (CallEvent::IdQueried { fd, ret: r.0, id: r.1 }),
            ),
    ;

    /// Read the current counter value of `fd`; -1 denotes failure.
    fn read_call(&mut self, fd: i32) -> (ret: isize)
        ensures
            final(self).log() == old(self).log().push(
                (CallEvent::CounterRead { fd, value: ret }),
            ),
    ;

    /// Release the kernel-object reference `fd`, tearing down the kernel
    /// object behind it.
    fn release_call(&mut self, fd: i32)
        ensures
            final(self).log() == old(self).log().push((CallEvent::Released { fd })),
    ;
}

} // verus!
