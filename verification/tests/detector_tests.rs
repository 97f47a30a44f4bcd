use focus_probe::detector::{Detector, WindowHandle};

#[test]
fn fresh_detector_tracks_nothing() {
    let d = Detector::new();
    assert!(d.last_seen.is_none());
}

#[test]
fn no_foreground_window_emits_nothing() {
    let mut d = Detector::new();
    assert_eq!(d.observe(None), None);
    assert!(d.last_seen.is_none());
    d.observe(Some(WindowHandle { raw: 7 }));
    assert_eq!(d.observe(None), None);
    assert_eq!(d.last_seen, Some(WindowHandle { raw: 7 }));
}

#[test]
fn first_observation_emits() {
    let mut d = Detector::new();
    let h = WindowHandle { raw: 1 };
    assert_eq!(d.observe(Some(h)), Some(h));
    assert_eq!(d.last_seen, Some(h));
}

#[test]
fn repeated_handle_emits_once() {
    let mut d = Detector::new();
    let a = WindowHandle { raw: 10 };
    let mut events = 0;
    for _ in 0..50 {
        if d.observe(Some(a)).is_some() {
            events += 1;
        }
    }
    assert_eq!(events, 1);
}

#[test]
fn changed_handle_emits_again() {
    let mut d = Detector::new();
    let a = WindowHandle { raw: 10 };
    let b = WindowHandle { raw: 11 };
    let mut emitted = Vec::new();
    for _ in 0..50 {
        if let Some(h) = d.observe(Some(a)) {
            emitted.push(h);
        }
    }
    if let Some(h) = d.observe(Some(b)) {
        emitted.push(h);
    }
    assert_eq!(emitted, vec![a, b]);
}

#[test]
fn switching_back_emits_again() {
    let mut d = Detector::new();
    let a = WindowHandle { raw: 1 };
    let b = WindowHandle { raw: 2 };
    assert!(d.observe(Some(a)).is_some());
    assert!(d.observe(Some(b)).is_some());
    assert!(d.observe(Some(a)).is_some());
    assert!(d.observe(Some(a)).is_none());
}
