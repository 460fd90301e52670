use perf_counter::desc::EventDesc;
use perf_counter::fake::FakeLayer;
use perf_counter::fd::FileDesc;

/// A descriptor for a hardware instruction-count event with a sampling
/// period of 1, recording the instruction pointer, starting disabled and
/// excluding kernel and hypervisor work.
fn instruction_event() -> EventDesc {
    EventDesc {
        event_type: 0,
        config: 1,
        sample_period: 1,
        sample_type: 1,
        disabled: true,
        exclude_kernel: true,
        exclude_hv: true,
    }
}

#[test]
fn interface_test() {
    let mut layer = FakeLayer::new_ok();
    let event = instruction_event();
    let fd = FileDesc::new(&event, 0, -1, -1, &mut layer).unwrap();
    // Make sure the control calls are working.
    fd.reset(&mut layer).unwrap();
    fd.disable(&mut layer).unwrap();
    fd.enable(&mut layer).unwrap();
    // The instructions executed between enable and read.
    layer.work(5);
    let cnt: isize = fd.read(&mut layer).unwrap();
    fd.id(&mut layer).unwrap();
    // change overflow sampling period
    fd.overflow_period(2, &mut layer).unwrap();
    fd.refresh(3, &mut layer).unwrap();
    assert_ne!(cnt, 0);
    assert!(cnt > 0, "cnt = {}", cnt);
}

#[test]
fn counting_work_reads_positive() {
    // Enable, perform a bounded unit of countable work, read: the value
    // is strictly positive.
    let mut layer = FakeLayer::new_ok();
    let event = instruction_event();
    let fd = FileDesc::new(&event, 0, -1, -1, &mut layer).unwrap();
    fd.reset(&mut layer).unwrap();
    fd.disable(&mut layer).unwrap();
    fd.enable(&mut layer).unwrap();
    for _ in 0..10 {
        layer.work(1);
    }
    let cnt = fd.read(&mut layer).unwrap();
    assert!(cnt > 0);
}

#[test]
fn reset_then_read_is_zero() {
    // A freshly enabled, idle counter reads 0 right after a reset.
    let mut layer = FakeLayer::new_ok();
    let event = instruction_event();
    let fd = FileDesc::new(&event, 0, -1, -1, &mut layer).unwrap();
    fd.enable(&mut layer).unwrap();
    fd.reset(&mut layer).unwrap();
    assert_eq!(fd.read(&mut layer).unwrap(), 0);
    // Even after earlier counting, a reset brings the next read to 0.
    layer.work(9);
    assert!(fd.read(&mut layer).unwrap() > 0);
    fd.reset(&mut layer).unwrap();
    assert_eq!(fd.read(&mut layer).unwrap(), 0);
}

#[test]
fn disabled_counter_retains_value() {
    let mut layer = FakeLayer::new_ok();
    let event = instruction_event();
    let fd = FileDesc::new(&event, 0, -1, -1, &mut layer).unwrap();
    fd.enable(&mut layer).unwrap();
    layer.work(4);
    fd.disable(&mut layer).unwrap();
    layer.work(8);
    assert_eq!(fd.read(&mut layer).unwrap(), 4);
}
