use storelib_rs::ProgressEvent;

#[test]
fn progress_events_with_and_without_counters() {
    let e = ProgressEvent::new("fe3.getCookie", "POST GetCookie".to_string());
    assert_eq!(e.stage, "fe3.getCookie");
    assert_eq!(e.message, "POST GetCookie");
    assert_eq!(e.current, None);
    assert_eq!(e.total, None);
    let c = ProgressEvent::counter("fe3.packageFound", "A_1".to_string(), 2, 5);
    assert_eq!(c.stage, "fe3.packageFound");
    assert_eq!(c.message, "A_1");
    assert_eq!((c.current, c.total), (Some(2), Some(5)));
}
