use appwave::coords::{NormCoord, NormPoint};
use appwave::error::{ControlError, TouchResponse};
use appwave::events::StreamLogEvent;
use appwave::logbus::{LogBus, LOG_BUS_CAPACITY};
use appwave::proxy::{stream_headers, RelayCounters, proxying_event, connect_failed_event};
use appwave::registry::{Session, SessionRegistry, StreamPlan};
use appwave::session::{
    command_flush_failed, command_write_failed, handshake_closed, handshake_line, handshake_read_failed, params_event,
    resolve_fps, resolve_quality, server_args, stderr_event, stdout_event, SessionStart,
};

fn session(udid: &str, url: &str, handle: u32) -> Session<u32> {
    Session { udid: udid.to_string(), stream_url: url.to_string(), handle }
}

fn text(e: &StreamLogEvent) -> (String, String) {
    match e {
        StreamLogEvent::Info { message } => ("info".to_string(), message.clone()),
        StreamLogEvent::Error { message } => ("error".to_string(), message.clone()),
        StreamLogEvent::Debug { message } => ("debug".to_string(), message.clone()),
        StreamLogEvent::Frame { frame_number } => ("frame".to_string(), frame_number.to_string()),
    }
}

#[test]
fn cached_session_url_is_reused() {
    let mut reg: SessionRegistry<u32> = SessionRegistry::new();
    assert!(matches!(reg.plan_stream("D1"), StreamPlan::Spawn));
    assert!(reg.insert(session("D1", "http://127.0.0.1:9000/a", 1)).is_none());
    for _ in 0..3 {
        match reg.plan_stream("D1") {
            StreamPlan::Reuse(url) => assert_eq!(url, "http://127.0.0.1:9000/a"),
            StreamPlan::Spawn => panic!("a cached session must be reused"),
        }
    }
    assert_eq!(reg.len(), 1);
    assert!(matches!(reg.plan_stream("D2"), StreamPlan::Spawn));
}

#[test]
fn second_insert_replaces_and_hands_back_the_first() {
    let mut reg: SessionRegistry<u32> = SessionRegistry::new();
    reg.insert(session("D1", "http://a", 1));
    reg.insert(session("D2", "http://b", 2));
    let old = reg.insert(session("D1", "http://c", 3)).expect("the first session comes back");
    assert_eq!(old.handle, 1);
    assert_eq!(old.stream_url, "http://a");
    assert_eq!(reg.len(), 2);
    match reg.plan_stream("D1") {
        StreamPlan::Reuse(url) => assert_eq!(url, "http://c"),
        StreamPlan::Spawn => panic!("expected reuse"),
    }
    let i = reg.find("D1").unwrap();
    assert_eq!(reg.session(i).handle, 3);
}

#[test]
fn commands_go_to_the_device_session() {
    let mut reg: SessionRegistry<u32> = SessionRegistry::new();
    reg.insert(session("D", "http://x", 7));
    let route = reg.route_command("D", "touch Up 0.0000,0.0000").unwrap();
    assert_eq!(route.line, "touch Up 0.0000,0.0000\n");
    assert_eq!(reg.session(route.index).handle, 7);
    match reg.route_command("E", "x") {
        Err(e) => {
            assert!(matches!(e, ControlError::NoActiveSession { .. }));
            assert_eq!(e.message(), "No active session for simulator E");
            assert_eq!(e.status_code(), 500);
        }
        Ok(_) => panic!("no session for E"),
    }
}

#[test]
fn touch_routing_validates_before_lookup() {
    let reg: SessionRegistry<u32> = SessionRegistry::new();
    let r = reg.route_touch("D", "began", &vec![]);
    let e = r.err().unwrap();
    assert!(matches!(e, ControlError::EmptyTouches));
    assert_eq!(e.status_code(), 400);
    assert_eq!(e.message(), "At least one touch point is required");
    assert_eq!(reg.len(), 0);
    let p = NormPoint { x: NormCoord { micros: 250_000 }, y: NormCoord { micros: 500_000 } };
    let e = reg.route_touch("D", "tap", &vec![p]).err().unwrap();
    assert_eq!(e.status_code(), 400);
    assert_eq!(e.message(), "Invalid touch type: tap. Must be 'began', 'moved', or 'ended'");
    let e = reg.route_touch("D", "began", &vec![p]).err().unwrap();
    assert!(matches!(e, ControlError::NoActiveSession { .. }));
    let resp = TouchResponse::from_outcome(&Err(e));
    assert!(!resp.success);
    assert_eq!(resp.error.unwrap(), "No active session for simulator D");
}

#[test]
fn touch_routing_to_a_live_session() {
    let mut reg: SessionRegistry<u32> = SessionRegistry::new();
    reg.insert(session("D", "http://x", 9));
    let p = NormPoint { x: NormCoord { micros: 250_000 }, y: NormCoord { micros: 500_000 } };
    let route = reg.route_touch("D", "began", &vec![p]).unwrap();
    assert_eq!(route.line, "touch Down 0.2500,0.5000\n");
    let resp = TouchResponse::from_outcome(&Ok(()));
    assert!(resp.success && resp.error.is_none());
}

#[test]
fn handshake_lines() {
    let s = handshake_line("  booting  ");
    assert!(s.url.is_none());
    assert_eq!(text(&s.log), ("debug".to_string(), "simulator-server stdout: booting".to_string()));
    let s = handshake_line("stream_ready http://127.0.0.1:9999/x\n");
    assert_eq!(s.url.unwrap(), "http://127.0.0.1:9999/x");
    assert_eq!(text(&s.log).1, "simulator-server stdout: stream_ready http://127.0.0.1:9999/x");
    let s = handshake_line("stream_ready    http://h/y  ");
    assert_eq!(s.url.unwrap(), "http://h/y");
    assert!(handshake_line("stream_ready").url.is_none());
    assert!(handshake_line("xstream_ready http://h").url.is_none());
    // the prefix is matched on the line as read
    assert!(handshake_line("  stream_ready http://h").url.is_none());
    assert_eq!(handshake_line("stream_ready ").url.unwrap(), "");
    assert_eq!(handshake_line("stream_ready  \t").url.unwrap(), "");
    assert_eq!(handshake_closed().message(), "simulator-server closed without sending stream_ready");
    assert_eq!(handshake_read_failed("broken pipe").message(), "Failed to read from simulator-server: broken pipe");
}

#[test]
fn session_start_publishes_in_order() {
    let (mut start, first) = SessionStart::begin("D");
    assert_eq!(text(&first), ("info".to_string(), "Spawning simulator-server for D".to_string()));
    let events = start.read_line(" warming up ");
    assert_eq!(events.len(), 1);
    assert_eq!(text(&events[0]), ("debug".to_string(), "simulator-server stdout: warming up".to_string()));
    assert!(start.url().is_none());
    let events = start.read_line("stream_ready http://127.0.0.1:1/s ");
    assert_eq!(events.len(), 2);
    assert_eq!(text(&events[0]).1, "simulator-server stdout: stream_ready http://127.0.0.1:1/s");
    assert_eq!(text(&events[1]), ("info".to_string(), "simulator-server ready at http://127.0.0.1:1/s".to_string()));
    assert_eq!(start.url().unwrap(), "http://127.0.0.1:1/s");
}

#[test]
fn command_io_failure_texts() {
    assert_eq!(command_write_failed("broken pipe").message(), "Failed to write command: broken pipe");
    assert_eq!(command_flush_failed("broken pipe").message(), "Failed to flush command: broken pipe");
}

#[test]
fn output_lines_after_the_handshake() {
    assert!(stdout_event("   ").is_none());
    assert_eq!(text(&stdout_event(" frame sent ").unwrap()).1, "simulator-server stdout: frame sent");
    assert!(stderr_event("").is_none());
    assert_eq!(text(&stderr_event(" warn ").unwrap()).1, "simulator-server stderr:  warn ");
}

#[test]
fn stream_parameters() {
    assert_eq!(resolve_fps(None, None), 60);
    assert_eq!(resolve_fps(Some(120), None), 60);
    assert_eq!(resolve_fps(None, Some(24)), 24);
    assert_eq!(resolve_fps(Some(30), Some(24)), 30);
    assert_eq!(resolve_quality(None, None), 700);
    assert_eq!(resolve_quality(Some(5), None), 100);
    assert_eq!(resolve_quality(None, Some(2000)), 1000);
    assert_eq!(resolve_quality(Some(850), Some(300)), 850);
    assert_eq!(server_args("ABC", 60, 700), vec!["--udid", "ABC", "--fps", "60", "--quality", "0.7"]);
    assert_eq!(text(&params_event(30, 1000)).1, "Using FPS: 30, Quality: 1");
}

#[test]
fn relay_counts_and_reports_progress() {
    let mut c = RelayCounters::new();
    for i in 1..100u64 {
        assert!(c.record_chunk(10).is_none(), "chunk {}", i);
    }
    let e = c.record_chunk(10).unwrap();
    assert_eq!(text(&e), ("debug".to_string(), "Stream progress: 100 chunks, 1000 bytes total".to_string()));
    assert_eq!(text(&c.ended_event()).1, "Stream ended after 100 chunks, 1000 bytes");
    assert_eq!(text(&c.chunk_failed_event("reset")), ("error".to_string(), "Stream chunk error after 100 chunks: reset".to_string()));
    let mut big = RelayCounters { chunks: 5, bytes: u64::MAX - 1 };
    big.record_chunk(10);
    assert_eq!(big.bytes, u64::MAX);
    assert_eq!(big.chunks, 6);
    assert_eq!(text(&connect_failed_event("refused")).1, "Failed to connect to simulator-server: refused");
}

#[test]
fn stream_response_headers() {
    let h = stream_headers();
    assert_eq!(h.len(), 7);
    assert_eq!(h[0], ("content-type".to_string(), "multipart/x-mixed-replace; boundary=--mjpegstream".to_string()));
    assert_eq!(h[4], ("access-control-allow-origin".to_string(), "*".to_string()));
    assert_eq!(h[5].1, "GET, OPTIONS");
}

#[test]
fn stream_request_end_to_end() {
    // a log subscriber attached before the request
    let mut bus = LogBus::new(LOG_BUS_CAPACITY);
    let mut sub = bus.subscribe();
    let mut reg: SessionRegistry<u32> = SessionRegistry::new();
    let udid = "ABC";
    assert!(matches!(reg.plan_stream(udid), StreamPlan::Spawn));
    let (mut start, spawning) = SessionStart::begin(udid);
    bus.publish(spawning);
    for line in ["starting", "  stream_ready http://wrong", "stream_ready http://127.0.0.1:9999/x"] {
        for e in start.read_line(line) {
            bus.publish(e);
        }
        if start.url().is_some() {
            break;
        }
    }
    let url = start.url().expect("handshake seen");
    assert_eq!(url, "http://127.0.0.1:9999/x");
    assert!(reg.insert(Session { udid: udid.to_string(), stream_url: url.clone(), handle: 1 }).is_none());
    bus.publish(proxying_event(&url));
    // bytes pass through unchanged and are counted one for one
    let body: Vec<Vec<u8>> = vec![b"--mjpegstream\r\n".to_vec(), vec![0xff, 0xd8, 0x00, 0xd9]];
    let mut relayed: Vec<u8> = Vec::new();
    let mut counters = RelayCounters::new();
    for chunk in &body {
        counters.record_chunk(chunk.len() as u64);
        relayed.extend_from_slice(chunk);
    }
    assert_eq!(relayed, body.concat());
    assert_eq!(counters.bytes, relayed.len() as u64);
    bus.publish(counters.ended_event());

    let mut seen = Vec::new();
    while let Some(e) = bus.next_log_item(&mut sub) {
        seen.push(text(&e));
    }
    let spawn = seen.iter().position(|e| e == &("info".to_string(), "Spawning simulator-server for ABC".to_string()));
    let ready = seen
        .iter()
        .position(|e| e == &("info".to_string(), "simulator-server ready at http://127.0.0.1:9999/x".to_string()));
    assert!(spawn.unwrap() < ready.unwrap());
    match reg.plan_stream(udid) {
        StreamPlan::Reuse(u) => assert_eq!(u, "http://127.0.0.1:9999/x"),
        StreamPlan::Spawn => panic!("expected reuse"),
    }
}
