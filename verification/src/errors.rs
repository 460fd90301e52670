use vstd::prelude::*;

verus! {

/// The failure kinds shared by every operation of the handle.
#[derive(Clone, Copy, Debug, PartialEq, Eq, Structural)]
pub enum SysErr {
    /// The raw open call returned the invalid-reference sentinel, so no
    /// handle could be constructed.
    OpenFail,
    /// A control call against the kernel object reported the failure
    /// sentinel.
    IoFail,
    /// The caller passed an argument that is well-typed but semantically
    /// forbidden; the kernel was not invoked.
    IoArg,
    /// The identifier call succeeded at the call level but yielded the
    /// sentinel value 0, which never denotes a real event identifier.
    IoId,
    /// The raw read of the counter value reported the failure sentinel.
    ReadFail,
}

} // verus!
