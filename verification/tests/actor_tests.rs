use chronosnap::actor::{CameraActor, OpenDevice};

fn dev(name: &str, w: u32, h: u32) -> OpenDevice {
    OpenDevice { name: name.to_owned(), width: w, height: h }
}

#[test]
fn fresh_actor_is_inactive() {
    let actor = CameraActor::new();
    let status = actor.on_get_status();
    assert!(!status.is_active);
    assert!(status.device_name.is_none());
    assert!(status.resolution.is_none());
    assert!(!actor.needs_release());
}

#[test]
fn start_with_default_device_reports_active_status() {
    let mut actor = CameraActor::new();
    let reply = actor.on_start(Ok(dev("Integrated Camera", 1280, 720)));
    let status = reply.expect("start should succeed");
    assert!(status.is_active);
    assert_eq!(status.device_name.as_deref(), Some("Integrated Camera"));
    assert_eq!(status.resolution, Some((1280, 720)));
    assert!(actor.needs_release());
}

#[test]
fn failed_start_leaves_actor_closed() {
    let mut actor = CameraActor::new();
    actor.on_start(Ok(dev("First", 640, 480))).expect("start should succeed");
    let reply = actor.on_start(Err("Failed to create camera: busy".to_owned()));
    assert_eq!(reply.unwrap_err(), "Failed to create camera: busy");
    let status = actor.on_get_status();
    assert!(!status.is_active);
    assert!(status.device_name.is_none());
    assert!(status.resolution.is_none());
}

#[test]
fn capture_without_start_is_refused() {
    let actor = CameraActor::new();
    let gate = actor.capture_gate();
    assert_eq!(gate.unwrap_err(), "Camera not started");
}

#[test]
fn capture_when_open_passes_pipeline_result_through() {
    let mut actor = CameraActor::new();
    actor.on_start(Ok(dev("Cam", 640, 480))).expect("start should succeed");
    assert!(actor.capture_gate().is_ok());
    let reply = actor.on_capture(Ok("data:image/jpeg;base64,AAAA".to_owned()));
    assert_eq!(reply.unwrap(), "data:image/jpeg;base64,AAAA");
    let failing = actor.on_capture(Err("Failed to capture frame: gone".to_owned()));
    assert_eq!(failing.unwrap_err(), "Failed to capture frame: gone");
    assert!(actor.on_get_status().is_active);
}

#[test]
fn second_start_supersedes_first() {
    let mut actor = CameraActor::new();
    actor.on_start(Ok(dev("Device Zero", 640, 480))).expect("start should succeed");
    actor.on_start(Ok(dev("Device One", 1920, 1080))).expect("start should succeed");
    let status = actor.on_get_status();
    assert!(status.is_active);
    assert_eq!(status.device_name.as_deref(), Some("Device One"));
    assert_eq!(status.resolution, Some((1920, 1080)));
}

#[test]
fn stop_twice_in_a_row_succeeds_both_times() {
    let mut actor = CameraActor::new();
    actor.on_start(Ok(dev("Cam", 640, 480))).expect("start should succeed");
    assert!(actor.on_stop().is_ok());
    assert!(actor.on_stop().is_ok());
    assert!(!actor.on_get_status().is_active);
}

#[test]
fn stop_on_fresh_actor_succeeds() {
    let mut actor = CameraActor::new();
    assert!(actor.on_stop().is_ok());
    assert!(!actor.needs_release());
}

#[test]
fn status_query_reflects_completed_transition() {
    let mut actor = CameraActor::new();
    // Even when the caller that issued the Start gave up waiting, the
    // transition completed; the next status query must see it.
    actor.on_start(Ok(dev("Slow Camera", 800, 600))).expect("start should succeed");
    let status = actor.on_get_status();
    assert!(status.is_active);
    assert_eq!(status.device_name.as_deref(), Some("Slow Camera"));
}

#[test]
fn every_returned_status_is_consistent() {
    let mut actor = CameraActor::new();
    let statuses = vec![
        actor.on_get_status(),
        actor.on_start(Ok(dev("Cam", 320, 240))).unwrap(),
        actor.on_get_status(),
        { actor.on_stop().unwrap(); actor.on_get_status() },
    ];
    for status in statuses {
        assert_eq!(
            status.is_active,
            status.device_name.is_some() && status.resolution.is_some()
        );
    }
}
