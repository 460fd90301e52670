use vstd::prelude::*;
use crate::control::{
    appended_one, id_of, lemma_push_appends_one, ret_of, read_value_of, CallEvent, ControlLayer,
    ControlOp,
};
use crate::desc::EventDesc;
use crate::errors::SysErr;

verus! {

/// A handle that exclusively owns one kernel-object reference to a
/// performance counter. The reference is assigned exactly once at
/// construction and used, unchanged, by every subsequent operation; the
/// handle holds no other state, since all counter state lives in the
/// kernel and is observed through the operations. The reference is given
/// back through `release`, which consumes the handle.
#[derive(Debug)]
pub struct FileDesc(i32);

impl FileDesc {
    /// The kernel-object reference this handle owns.
    pub closed spec fn fd(&self) -> i32 {
        self.0
    }

    /// Set up performance monitoring for the configured event, with no
    /// flags, through one open call. Construction fails outright when the
    /// open call reports the invalid-reference sentinel; it never yields
    /// a handle around an invalid reference.
    pub fn new<L: ControlLayer>(
        event: &EventDesc,
        pid: i32,
        cpu: i32,
        group_fd: i32,
        layer: &mut L,
    ) -> (r: Result<FileDesc, SysErr>)
        ensures
            appended_one(old(layer).log(), final(layer).log()),
            (final(layer).log().last() matches CallEvent::Opened {
                desc,
                pid: p,
                cpu: c,
                group_fd: g,
                ret: _,
            } && desc == *event && p == pid && c == cpu && g == group_fd),
            r == Err::<FileDesc, SysErr>(SysErr::OpenFail) <==> ret_of(
                final(layer).log().last(),
            ) == -1,
            ret_of(final(layer).log().last()) != -1 ==> (r matches Ok(h) && h.fd() == ret_of(
                final(layer).log().last(),
            )),
    {
        let ret = layer.open_call(event, pid, cpu, group_fd);
        proof {
            lemma_push_appends_one(
                old(layer).log(),
                (CallEvent::Opened { desc: *event, pid, cpu, group_fd, ret }),
            );
        }
        if ret == -1 {
            Err(SysErr::OpenFail)
        } else {
            Ok(FileDesc(ret))
        }
    }

    /// Issue one control call against the owned reference and map the
    /// kernel's sentinel to the shared failure kind. Every control
    /// operation dispatches through here.
    fn control<L: ControlLayer>(&self, op: ControlOp, layer: &mut L) -> (r: Result<(), SysErr>)
        requires
            op matches ControlOp::Refresh { count } ==> count >= 1,
        ensures
            appended_one(old(layer).log(), final(layer).log()),
            (final(layer).log().last() matches CallEvent::Controlled { fd, op: o, ret: _ }
                && fd == self.fd() && o == op),
            r == Ok::<(), SysErr>(()) <==> ret_of(final(layer).log().last()) != -1,
            r is Err ==> r == Err::<(), SysErr>(SysErr::IoFail),
    {
        let ret = layer.control_call(self.0, op);
        proof {
            lemma_push_appends_one(
                old(layer).log(),
                (CallEvent::Controlled { fd: self.0, op, ret }),
            );
        }
        if ret == -1 {
            Err(SysErr::IoFail)
        } else {
            Ok(())
        }
    }

    /// Let the counter associated with this handle begin incrementing.
    pub fn enable<L: ControlLayer>(&self, layer: &mut L) -> (r: Result<(), SysErr>)
        ensures
            appended_one(old(layer).log(), final(layer).log()),
            (final(layer).log().last() matches CallEvent::Controlled { fd, op, ret: _ }
                && fd == self.fd() && op == ControlOp::Enable),
            r == Ok::<(), SysErr>(()) <==> ret_of(final(layer).log().last()) != -1,
            r is Err ==> r == Err::<(), SysErr>(SysErr::IoFail),
    {
        self.control(ControlOp::Enable, layer)
    }

    /// Stop the counter associated with this handle; it retains its value.
    pub fn disable<L: ControlLayer>(&self, layer: &mut L) -> (r: Result<(), SysErr>)
        ensures
            appended_one(old(layer).log(), final(layer).log()),
            (final(layer).log().last() matches CallEvent::Controlled { fd, op, ret: _ }
                && fd == self.fd() && op == ControlOp::Disable),
            r == Ok::<(), SysErr>(()) <==> ret_of(final(layer).log().last()) != -1,
            r is Err ==> r == Err::<(), SysErr>(SysErr::IoFail),
    {
        self.control(ControlOp::Disable, layer)
    }

    /// Add `count` to the overflow-countdown register; when the register
    /// reaches 0 the kernel disables the event. A `count` of 0 is
    /// undefined at the kernel boundary, so it is rejected before any
    /// call is made: the layer is left untouched and the caller gets the
    /// argument-validation failure kind.
    pub fn refresh<L: ControlLayer>(&self, count: usize, layer: &mut L) -> (r: Result<
        (),
        SysErr,
    >)
        ensures
            count == 0 ==> *final(layer) == *old(layer) && r == Err::<(), SysErr>(SysErr::IoArg),
            count >= 1 ==> {
                &&& appended_one(old(layer).log(), final(layer).log())
                &&& (final(layer).log().last() matches CallEvent::Controlled { fd, op, ret: _ }
                    && fd == self.fd() && op == (ControlOp::Refresh { count }))
                &&& (r == Ok::<(), SysErr>(()) <==> ret_of(final(layer).log().last()) != -1)
                &&& (r is Err ==> r == Err::<(), SysErr>(SysErr::IoFail))
            },
    {
        if count == 0 {
            return Err(SysErr::IoArg);
        }
        self.control(ControlOp::Refresh { count }, layer)
    }

    /// Reset the counter value to 0.
    pub fn reset<L: ControlLayer>(&self, layer: &mut L) -> (r: Result<(), SysErr>)
        ensures
            appended_one(old(layer).log(), final(layer).log()),
            (final(layer).log().last() matches CallEvent::Controlled { fd, op, ret: _ }
                && fd == self.fd() && op == ControlOp::Reset),
            r == Ok::<(), SysErr>(()) <==> ret_of(final(layer).log().last()) != -1,
            r is Err ==> r == Err::<(), SysErr>(SysErr::IoFail),
    {
        self.control(ControlOp::Reset, layer)
    }

    /// Set the sampling/overflow period to `interval`. Meaningful only
    /// when the descriptor's sampling fields were initialized at
    /// construction time; that is the caller's responsibility and is not
    /// checked here.
    pub fn overflow_period<L: ControlLayer>(&self, interval: usize, layer: &mut L) -> (r: Result<
        (),
        SysErr,
    >)
        ensures
            appended_one(old(layer).log(), final(layer).log()),
            (final(layer).log().last() matches CallEvent::Controlled { fd, op, ret: _ }
                && fd == self.fd() && op == (ControlOp::Period { interval })),
            r == Ok::<(), SysErr>(()) <==> ret_of(final(layer).log().last()) != -1,
            r is Err ==> r == Err::<(), SysErr>(SysErr::IoFail),
    {
        self.control(ControlOp::Period { interval }, layer)
    }

    /// Redirect this counter's sample output to the buffer of `other`.
    pub fn set_output<L: ControlLayer>(&self, other: &FileDesc, layer: &mut L) -> (r: Result<
        (),
        SysErr,
    >)
        ensures
            appended_one(old(layer).log(), final(layer).log()),
            (final(layer).log().last() matches CallEvent::Controlled { fd, op, ret: _ }
                && fd == self.fd() && op == (ControlOp::SetOutput { target: other.fd() })),
            r == Ok::<(), SysErr>(()) <==> ret_of(final(layer).log().last()) != -1,
            r is Err ==> r == Err::<(), SysErr>(SysErr::IoFail),
    {
        self.control(ControlOp::SetOutput { target: other.0 }, layer)
    }

    /// Stop producing sample records while the counter keeps counting.
    pub fn ignore_output<L: ControlLayer>(&self, layer: &mut L) -> (r: Result<(), SysErr>)
        ensures
            appended_one(old(layer).log(), final(layer).log()),
            (final(layer).log().last() matches CallEvent::Controlled { fd, op, ret: _ }
                && fd == self.fd() && op == (ControlOp::SetOutput { target: -1i32 })),
            r == Ok::<(), SysErr>(()) <==> ret_of(final(layer).log().last()) != -1,
            r is Err ==> r == Err::<(), SysErr>(SysErr::IoFail),
    {
        self.control(ControlOp::SetOutput { target: -1 }, layer)
    }

    /// Return the kernel-assigned event identifier. A hard call failure
    /// and a returned identifier of 0 — which never denotes a real
    /// identifier — are reported as distinct failure kinds, so callers
    /// can tell "no id" from "call broke".
    pub fn id<L: ControlLayer>(&self, layer: &mut L) -> (r: Result<usize, SysErr>)
        ensures
            appended_one(old(layer).log(), final(layer).log()),
            (final(layer).log().last() matches CallEvent::IdQueried { fd, ret: _, id: _ }
                && fd == self.fd()),
            r == Err::<usize, SysErr>(SysErr::IoFail) <==> ret_of(final(layer).log().last())
                == -1,
            r == Err::<usize, SysErr>(SysErr::IoId) <==> (ret_of(final(layer).log().last()) != -1
                && id_of(final(layer).log().last()) == 0),
            (ret_of(final(layer).log().last()) != -1 && id_of(final(layer).log().last()) != 0)
                ==> r == Ok::<usize, SysErr>(id_of(final(layer).log().last())),
    {
        let call = layer.id_call(self.0);
        let ret = call.0;
        let raw = call.1;
        proof {
            lemma_push_appends_one(
                old(layer).log(),
                (CallEvent::IdQueried { fd: self.0, ret, id: raw }),
            );
        }
        if ret == -1 {
            return Err(SysErr::IoFail);
        }
        if raw == 0 {
            return Err(SysErr::IoId);
        }
        Ok(raw)
    }

    /// Pause writes to the sample ring buffer without stopping the
    /// counter.
    pub fn pause_output<L: ControlLayer>(&self, layer: &mut L) -> (r: Result<(), SysErr>)
        ensures
            appended_one(old(layer).log(), final(layer).log()),
            (final(layer).log().last() matches CallEvent::Controlled { fd, op, ret: _ }
                && fd == self.fd() && op == (ControlOp::PauseOutput { pause: true })),
            r == Ok::<(), SysErr>(()) <==> ret_of(final(layer).log().last()) != -1,
            r is Err ==> r == Err::<(), SysErr>(SysErr::IoFail),
    {
        self.control(ControlOp::PauseOutput { pause: true }, layer)
    }

    /// Resume writes to the sample ring buffer.
    pub fn resume_output<L: ControlLayer>(&self, layer: &mut L) -> (r: Result<(), SysErr>)
        ensures
            appended_one(old(layer).log(), final(layer).log()),
            (final(layer).log().last() matches CallEvent::Controlled { fd, op, ret: _ }
                && fd == self.fd() && op == (ControlOp::PauseOutput { pause: false })),
            r == Ok::<(), SysErr>(()) <==> ret_of(final(layer).log().last()) != -1,
            r is Err ==> r == Err::<(), SysErr>(SysErr::IoFail),
    {
        self.control(ControlOp::PauseOutput { pause: false }, layer)
    }

    /// Atomically change the monitored event's configuration to `event`.
    pub fn modify_attributes<L: ControlLayer>(&self, event: &EventDesc, layer: &mut L) -> (r:
        Result<(), SysErr>)
        ensures
            appended_one(old(layer).log(), final(layer).log()),
            (final(layer).log().last() matches CallEvent::Controlled { fd, op, ret: _ }
                && fd == self.fd() && op == (ControlOp::ModifyAttributes { desc: *event })),
            r == Ok::<(), SysErr>(()) <==> ret_of(final(layer).log().last()) != -1,
            r is Err ==> r == Err::<(), SysErr>(SysErr::IoFail),
    {
        self.control(ControlOp::ModifyAttributes { desc: *event }, layer)
    }

    /// Read the counter's current value through one raw read call.
    pub fn read<L: ControlLayer>(&self, layer: &mut L) -> (r: Result<isize, SysErr>)
        ensures
            appended_one(old(layer).log(), final(layer).log()),
            (final(layer).log().last() matches CallEvent::CounterRead { fd, value: _ }
                && fd == self.fd()),
            r == Err::<isize, SysErr>(SysErr::ReadFail) <==> read_value_of(
                final(layer).log().last(),
            ) == -1,
            read_value_of(final(layer).log().last()) != -1 ==> r == Ok::<isize, SysErr>(
                read_value_of(final(layer).log().last()),
            ),
    {
        let ret = layer.read_call(self.0);
        proof {
            lemma_push_appends_one(
                old(layer).log(),
                (CallEvent::CounterRead { fd: self.0, value: ret }),
            );
        }
        if ret == -1 {
            return Err(SysErr::ReadFail);
        }
        Ok(ret)
    }

    /// Release the owned kernel-object reference, tearing the kernel
    /// object down. Consuming the handle makes a second release of the
    /// same reference, or any use after the release, a compile-time
    /// error: each handle releases its reference exactly once.
    pub fn release<L: ControlLayer>(self, layer: &mut L)
        ensures
            appended_one(old(layer).log(), final(layer).log()),
            final(layer).log().last() == (CallEvent::Released { fd: self.fd() }),
    {
        proof {
            lemma_push_appends_one(old(layer).log(), (CallEvent::Released { fd: self.0 }));
        }
        layer.release_call(self.0);
    }
}

} // verus!
