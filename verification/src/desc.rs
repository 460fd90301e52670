use vstd::prelude::*;

verus! {

/// A fully-initialized description of the event to monitor: which event,
/// its sampling behavior, and its initial enabled/exclusion flags.
///
/// The handle does not interpret these fields; it forwards them unchanged
/// to the layer that performs the raw open call. Callers are responsible
/// for choosing a meaningful combination.
#[derive(Clone, Copy, Debug, PartialEq, Eq, Structural)]
pub struct EventDesc {
    /// The general class of event (hardware, software, cache, ...).
    pub event_type: u32,
    /// Which event of that class to count.
    pub config: u64,
    /// The sampling/overflow period.
    pub sample_period: u64,
    /// Which fields are recorded in each sample.
    pub sample_type: u64,
    /// Start the counter disabled.
    pub disabled: bool,
    /// Do not count while the kernel is running.
    pub exclude_kernel: bool,
    /// Do not count while a hypervisor is running.
    pub exclude_hv: bool,
}

} // verus!
