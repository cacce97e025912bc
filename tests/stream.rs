use health_monitor::stream::{frame_for_event, frame_for_lag, StreamFrame};
use health_monitor::text::push_decimal;

#[test]
fn serialized_event_becomes_data_frame() {
    let f = frame_for_event(Some("{\"name\":\"a\"}".to_string()));
    assert!(matches!(&f, StreamFrame::Data(d) if d == "{\"name\":\"a\"}"));
    assert_eq!(f.event_type(), None);
}

#[test]
fn serialization_failure_becomes_error_frame() {
    let f = frame_for_event(None);
    assert!(matches!(&f, StreamFrame::Error(d) if d == "internal: serialization error"));
    assert_eq!(f.event_type(), Some("error"));
}

#[test]
fn lag_becomes_error_frame_with_count() {
    let f = frame_for_lag(5);
    assert!(matches!(&f, StreamFrame::Error(d) if d == "Connection lagged. You missed 5 messages."));
    let f = frame_for_lag(1234);
    assert!(matches!(&f, StreamFrame::Error(d) if d == "Connection lagged. You missed 1234 messages."));
}

#[test]
fn decimal_rendering() {
    for n in [0u64, 7, 10, 99, 100, 4096, u64::MAX] {
        let mut s = String::from("n=");
        push_decimal(&mut s, n);
        assert_eq!(s, format!("n={}", n));
    }
}
