use vstd::prelude::*;
use crate::control::{CallEvent, ControlLayer, ControlOp};
use crate::desc::EventDesc;
use crate::lifecycle::release_count;

verus! {

/// A stand-in for the kernel's side of the control-call surface: it
/// performs no system call, records every call it is asked to make, and
/// answers from a small model — configurable call results, an enabled
/// flag, and a counter value that `work` advances while the counter is
/// enabled.
///
/// It exists so that the handle can be driven deterministically: a caller
/// can make any operation succeed or fail, observe which calls were
/// issued, and count releases.
pub struct FakeLayer {
    /// Every call made through this layer, in order.
    pub calls: Vec<CallEvent>,
    /// What the open call returns; -1 makes construction fail.
    pub open_ret: i32,
    /// What every control call returns; -1 makes control operations fail.
    pub control_ret: i32,
    /// What the identifier query returns at the call level; -1 makes it
    /// fail before an identifier is written.
    pub id_ret: i32,
    /// The identifier the query writes when the call succeeds.
    pub id_value: usize,
    /// Make the read call report its failure sentinel.
    pub read_fails: bool,
    /// Whether the modeled counter is currently counting.
    pub enabled: bool,
    /// The modeled counter value.
    pub counter: isize,
}

impl FakeLayer {
    /// A layer in a good mood: no call has been made yet, every call
    /// succeeds, the identifier is a fixed nonzero value, and the counter
    /// starts disabled at 0.
    pub fn new_ok() -> (r: FakeLayer)
        ensures
            r.log().len() == 0,
            r.open_ret == 3,
            r.control_ret == 0,
            r.id_ret == 0,
            r.id_value == 42,
            !r.read_fails,
            !r.enabled,
            r.counter == 0,
    {
        FakeLayer {
            calls: Vec::new(),
            open_ret: 3,
            control_ret: 0,
            id_ret: 0,
            id_value: 42,
            read_fails: false,
            enabled: false,
            counter: 0,
        }
    }

    /// A bounded unit of countable work: while the modeled counter is
    /// enabled, `amount` of it is counted; while it is disabled, the
    /// counter retains its value. No call is recorded — work is in-band,
    /// not a control call.
    pub fn work(&mut self, amount: isize)
        requires
            amount >= 0,
            old(self).counter + amount <= isize::MAX,
        ensures
            final(self).log() == old(self).log(),
            final(self).enabled == old(self).enabled,
            final(self).counter == if old(self).enabled {
                old(self).counter + amount
            } else {
                old(self).counter as int
            },
    {
        if self.enabled {
            self.counter = self.counter + amount;
        }
    }

    /// How many calls have been made through this layer.
    pub fn call_count(&self) -> (n: usize)
        ensures
            n == self.log().len(),
    {
        self.calls.len()
    }

    /// The most recent call made through this layer, if any.
    pub fn last_call(&self) -> (ev: Option<CallEvent>)
        ensures
            self.log().len() == 0 ==> ev is None,
            self.log().len() > 0 ==> ev == Some(self.log().last()),
    {
        if self.calls.len() == 0 {
            None
        } else {
            Some(self.calls[self.calls.len() - 1])
        }
    }

    /// How many times the kernel-object reference `fd` has been released
    /// through this layer.
    pub fn releases_of(&self, fd: i32) -> (n: usize)
        ensures
            n == release_count(self.log(), fd),
    {
        let mut n: usize = 0;
        let mut i: usize = 0;
        while i < self.calls.len()
            invariant
                i <= self.calls.len(),
                n <= i,
                n == release_count(self.log().take(i as int), fd),
            decreases self.calls.len() - i,
        {
            proof {
                assert(self.log().take(i + 1).drop_last() =~= self.log().take(i as int));
                assert(self.log().take(i + 1).last() == self.log()[i as int]);
            }
            let ev = self.calls[i];
            if let CallEvent::Released { fd: f } = ev {
                if f == fd {
                    n = n + 1;
                }
            }
            i = i + 1;
        }
        proof {
            assert(self.log().take(self.calls.len() as int) =~= self.log());
        }
        n
    }
}

impl ControlLayer for FakeLayer {
    open spec fn log(&self) -> Seq<CallEvent> {
        self.calls@
    }

    fn open_call(&mut self, desc: &EventDesc, pid: i32, cpu: i32, group_fd: i32) -> (ret: i32) {
        let ret = self.open_ret;
        self.calls.push(CallEvent::Opened { desc: *desc, pid, cpu, group_fd, ret });
        ret
    }

    fn control_call(&mut self, fd: i32, op: ControlOp) -> (ret: i32) {
        let ret = self.control_ret;
        if ret != -1 {
            match op {
                ControlOp::Enable => {
                    self.enabled = true;
                },
                ControlOp::Disable => {
                    self.enabled = false;
                },
                ControlOp::Reset => {
                    self.counter = 0;
                },
                _ => {},
            }
        }
        self.calls.push(CallEvent::Controlled { fd, op, ret });
        ret
    }

    fn id_call(&mut self, fd: i32) -> (r: (i32, usize)) {
        let ret = self.id_ret;
        let id: usize = if ret == -1 {
            0
        } else {
            self.id_value
        };
        self.calls.push(CallEvent::IdQueried { fd, ret, id });
        (ret, id)
    }

    fn read_call(&mut self, fd: i32) -> (ret: isize) {
        let ret: isize = if self.read_fails {
            -1
        } else {
            self.counter
        };
        self.calls.push(CallEvent::CounterRead { fd, value: ret });
        ret
    }

    fn release_call(&mut self, fd: i32) {
        self.calls.push(CallEvent::Released { fd });
    }
}

} // verus!
