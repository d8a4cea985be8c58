use dataflow_engine::error::ErrorCode;
use dataflow_engine::error::ErrorKind;
use dataflow_engine::port::Port;
use dataflow_engine::processor::Event;

#[test]
fn new_port_is_empty() {
    let port: Port<u32> = Port::new();
    assert!(port.can_push());
    assert!(!port.has_data());
    assert!(!port.is_finished());
    assert!(port.error().is_none());
}

#[test]
fn push_then_pull_hands_the_unit_over() {
    let mut port: Port<u32> = Port::new();
    assert!(port.try_push(7));
    assert!(port.has_data());
    assert!(!port.can_push());
    assert_eq!(port.try_pull(), Some(7));
    assert!(port.can_push());
    assert_eq!(port.try_pull(), None);
}

#[test]
fn full_port_refuses_a_second_unit() {
    let mut port: Port<u32> = Port::new();
    assert!(port.try_push(1));
    assert!(!port.try_push(2));
    assert_eq!(port.try_pull(), Some(1));
    assert_eq!(port.try_pull(), None);
}

#[test]
fn units_leave_in_the_order_pushed() {
    let mut port: Port<u32> = Port::new();
    let mut pulled = Vec::new();
    for unit in [3u32, 1, 4, 1, 5] {
        assert!(port.try_push(unit));
        pulled.push(port.try_pull().unwrap());
    }
    assert_eq!(pulled, vec![3, 1, 4, 1, 5]);
}

#[test]
fn finished_port_takes_and_gives_nothing() {
    let mut port: Port<u32> = Port::new();
    port.set_finished();
    assert!(port.is_finished());
    assert!(!port.can_push());
    assert!(!port.try_push(9));
    assert_eq!(port.try_pull(), None);
    assert!(port.error().is_none());
}

#[test]
fn finishing_gives_up_the_held_unit() {
    let mut port: Port<u32> = Port::new();
    assert!(port.try_push(9));
    port.set_finished();
    assert!(port.is_finished());
    assert!(!port.has_data());
    assert_eq!(port.try_pull(), None);
}

#[test]
fn error_is_kept_and_finishes_the_port() {
    let mut port: Port<u32> = Port::new();
    port.set_error(ErrorCode::create(ErrorKind::ResourceError, "disk gone"));
    assert!(port.is_finished());
    assert!(!port.can_push());
    let err = port.error().unwrap();
    assert_eq!(err.kind(), ErrorKind::ResourceError);
    assert_eq!(err.message(), "disk gone");
}

#[test]
fn first_error_stays_on_record() {
    let mut port: Port<u32> = Port::new();
    port.set_error(ErrorCode::create(ErrorKind::InputError, "first"));
    port.set_error(ErrorCode::create(ErrorKind::ResourceError, "second"));
    port.set_finished();
    let err = port.error().unwrap();
    assert_eq!(err.kind(), ErrorKind::InputError);
    assert_eq!(err.message(), "first");
}

#[test]
fn error_replaces_a_finished_mark() {
    let mut port: Port<u32> = Port::new();
    port.set_finished();
    port.set_error(ErrorCode::create(ErrorKind::SchemaError, "late"));
    assert_eq!(port.error().unwrap().kind(), ErrorKind::SchemaError);
}

#[test]
fn error_kinds_and_fatality() {
    for (kind, fatal) in [
        (ErrorKind::InputError, false),
        (ErrorKind::ResourceError, false),
        (ErrorKind::SchemaError, false),
        (ErrorKind::InternalError, true),
        (ErrorKind::CancelledError, false),
    ] {
        let err = ErrorCode::create(kind, "m");
        assert_eq!(err.kind(), kind);
        assert_eq!(err.is_fatal(), fatal);
    }
}

#[test]
fn error_with_detail_joins_prefix_and_detail() {
    let err = ErrorCode::with_detail(ErrorKind::InputError, "bad batch: ", "row 3");
    assert_eq!(err.message(), "bad batch: row 3");
    let copy = err.clone();
    assert_eq!(copy.kind(), ErrorKind::InputError);
    assert_eq!(copy.message(), "bad batch: row 3");
}

#[test]
fn event_classes() {
    assert!(Event::NeedsInput.is_parked());
    assert!(Event::NeedsConsume.is_parked());
    assert!(!Event::Ready.is_parked());
    assert!(!Event::Suspend.is_parked());
    assert!(!Event::Finished.is_parked());
    assert!(Event::Finished.is_finished());
    assert!(!Event::Suspend.is_finished());
}
