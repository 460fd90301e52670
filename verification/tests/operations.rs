use perf_counter::control::{CallEvent, ControlOp};
use perf_counter::desc::EventDesc;
use perf_counter::errors::SysErr;
use perf_counter::fake::FakeLayer;
use perf_counter::fd::FileDesc;

fn plain_event() -> EventDesc {
    EventDesc {
        event_type: 0,
        config: 1,
        sample_period: 1,
        sample_type: 1,
        disabled: true,
        exclude_kernel: true,
        exclude_hv: true,
    }
}

#[test]
fn open_failure_is_reported() {
    let mut layer = FakeLayer::new_ok();
    layer.open_ret = -1;
    let r = FileDesc::new(&plain_event(), 0, -1, -1, &mut layer);
    assert_eq!(r.unwrap_err(), SysErr::OpenFail);
}

#[test]
fn open_success_yields_working_handle() {
    // A constructed handle is never silently broken: its control
    // operations go through against the reference the open call yielded.
    let mut layer = FakeLayer::new_ok();
    let fd = FileDesc::new(&plain_event(), 0, -1, -1, &mut layer).unwrap();
    assert!(fd.reset(&mut layer).is_ok());
    assert!(fd.disable(&mut layer).is_ok());
    assert!(fd.enable(&mut layer).is_ok());
}

#[test]
fn open_records_its_arguments() {
    let mut layer = FakeLayer::new_ok();
    let event = plain_event();
    let _ = FileDesc::new(&event, 0, -1, -1, &mut layer);
    assert_eq!(
        layer.last_call(),
        Some(CallEvent::Opened { desc: event, pid: 0, cpu: -1, group_fd: -1, ret: 3 })
    );
}

#[test]
fn refresh_zero_rejected_before_kernel() {
    let mut layer = FakeLayer::new_ok();
    let fd = FileDesc::new(&plain_event(), 0, -1, -1, &mut layer).unwrap();
    let calls_before = layer.call_count();
    let r = fd.refresh(0, &mut layer);
    assert_eq!(r.unwrap_err(), SysErr::IoArg);
    // The rejection happened before any call was attempted.
    assert_eq!(layer.call_count(), calls_before);
}

#[test]
fn refresh_issues_one_call_with_value() {
    let mut layer = FakeLayer::new_ok();
    let fd = FileDesc::new(&plain_event(), 0, -1, -1, &mut layer).unwrap();
    let calls_before = layer.call_count();
    fd.refresh(3, &mut layer).unwrap();
    assert_eq!(layer.call_count(), calls_before + 1);
    assert_eq!(
        layer.last_call(),
        Some(CallEvent::Controlled { fd: 3, op: ControlOp::Refresh { count: 3 }, ret: 0 })
    );
    // Success is reported iff the underlying call reports success.
    layer.control_ret = -1;
    let r = fd.refresh(5, &mut layer);
    assert_eq!(r.unwrap_err(), SysErr::IoFail);
    assert_eq!(layer.call_count(), calls_before + 2);
    assert_eq!(
        layer.last_call(),
        Some(CallEvent::Controlled { fd: 3, op: ControlOp::Refresh { count: 5 }, ret: -1 })
    );
}

#[test]
fn control_failure_is_reported() {
    let mut layer = FakeLayer::new_ok();
    let fd = FileDesc::new(&plain_event(), 0, -1, -1, &mut layer).unwrap();
    layer.control_ret = -1;
    assert_eq!(fd.enable(&mut layer).unwrap_err(), SysErr::IoFail);
    assert_eq!(fd.disable(&mut layer).unwrap_err(), SysErr::IoFail);
    assert_eq!(fd.reset(&mut layer).unwrap_err(), SysErr::IoFail);
    assert_eq!(fd.overflow_period(2, &mut layer).unwrap_err(), SysErr::IoFail);
}

#[test]
fn id_failure_kinds_are_distinct() {
    let mut layer = FakeLayer::new_ok();
    let fd = FileDesc::new(&plain_event(), 0, -1, -1, &mut layer).unwrap();
    // The call itself fails: a hard call failure.
    layer.id_ret = -1;
    assert_eq!(fd.id(&mut layer).unwrap_err(), SysErr::IoFail);
    // The call succeeds but yields 0, which never denotes a real
    // identifier: identifier-unavailable.
    layer.id_ret = 0;
    layer.id_value = 0;
    assert_eq!(fd.id(&mut layer).unwrap_err(), SysErr::IoId);
    // The call succeeds with a nonzero identifier: that identifier.
    layer.id_value = 7;
    assert_eq!(fd.id(&mut layer).unwrap(), 7);
}

#[test]
fn read_failure_is_reported() {
    let mut layer = FakeLayer::new_ok();
    let fd = FileDesc::new(&plain_event(), 0, -1, -1, &mut layer).unwrap();
    layer.read_fails = true;
    assert_eq!(fd.read(&mut layer).unwrap_err(), SysErr::ReadFail);
}

#[test]
fn output_routing_issues_expected_calls() {
    let mut layer = FakeLayer::new_ok();
    let first = FileDesc::new(&plain_event(), 0, -1, -1, &mut layer).unwrap();
    layer.open_ret = 7;
    let second = FileDesc::new(&plain_event(), 0, -1, -1, &mut layer).unwrap();
    first.set_output(&second, &mut layer).unwrap();
    assert_eq!(
        layer.last_call(),
        Some(CallEvent::Controlled { fd: 3, op: ControlOp::SetOutput { target: 7 }, ret: 0 })
    );
    first.ignore_output(&mut layer).unwrap();
    assert_eq!(
        layer.last_call(),
        Some(CallEvent::Controlled { fd: 3, op: ControlOp::SetOutput { target: -1 }, ret: 0 })
    );
    first.pause_output(&mut layer).unwrap();
    assert_eq!(
        layer.last_call(),
        Some(CallEvent::Controlled { fd: 3, op: ControlOp::PauseOutput { pause: true }, ret: 0 })
    );
    first.resume_output(&mut layer).unwrap();
    assert_eq!(
        layer.last_call(),
        Some(CallEvent::Controlled { fd: 3, op: ControlOp::PauseOutput { pause: false }, ret: 0 })
    );
}

#[test]
fn modify_attributes_forwards_descriptor() {
    let mut layer = FakeLayer::new_ok();
    let fd = FileDesc::new(&plain_event(), 0, -1, -1, &mut layer).unwrap();
    let mut changed = plain_event();
    changed.config = 4;
    fd.modify_attributes(&changed, &mut layer).unwrap();
    assert_eq!(
        layer.last_call(),
        Some(CallEvent::Controlled {
            fd: 3,
            op: ControlOp::ModifyAttributes { desc: changed },
            ret: 0,
        })
    );
}

#[test]
fn release_happens_exactly_once() {
    let mut layer = FakeLayer::new_ok();
    let fd = FileDesc::new(&plain_event(), 0, -1, -1, &mut layer).unwrap();
    // However many control operations were performed ...
    fd.enable(&mut layer).unwrap();
    fd.disable(&mut layer).unwrap();
    fd.reset(&mut layer).unwrap();
    let _ = fd.read(&mut layer);
    assert_eq!(layer.releases_of(3), 0);
    // ... releasing the handle releases its reference exactly once.
    fd.release(&mut layer);
    assert_eq!(layer.releases_of(3), 1);
    assert_eq!(layer.last_call(), Some(CallEvent::Released { fd: 3 }));
}

#[test]
fn each_handle_releases_its_own_reference() {
    let mut layer = FakeLayer::new_ok();
    let first = FileDesc::new(&plain_event(), 0, -1, -1, &mut layer).unwrap();
    layer.open_ret = 7;
    let second = FileDesc::new(&plain_event(), 0, -1, -1, &mut layer).unwrap();
    first.enable(&mut layer).unwrap();
    second.enable(&mut layer).unwrap();
    first.release(&mut layer);
    second.release(&mut layer);
    assert_eq!(layer.releases_of(3), 1);
    assert_eq!(layer.releases_of(7), 1);
}
