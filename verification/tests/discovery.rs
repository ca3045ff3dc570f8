use rust_browser_control::config::BrowserConfig;
use rust_browser_control::discovery::{Probe, ProbeActionOf, ProbeEvent, SocketEntry};
use rust_browser_control::error::{ControlError, ErrorOf};
use rust_browser_control::json::{parse_json, Json};

fn config() -> BrowserConfig {
    BrowserConfig {
        socket_dir: b"/sockets".to_vec(),
        sessions_root: b"sessions".to_vec(),
        session_id: "task-1".to_owned(),
        download_dir: b"downloads".to_vec(),
        screenshot_dir: b"screenshots".to_vec(),
        allowed_hosts: vec!["*".to_owned()],
    }
}

fn read(text: &str) -> Json {
    parse_json(text.as_bytes()).unwrap()
}

fn entry(name: &str, is_socket: bool) -> ProbeEvent {
    ProbeEvent::Entry(Some(SocketEntry {
        path: format!("/sockets/{}", name).into_bytes(),
        name: name.as_bytes().to_vec(),
        is_socket,
    }))
}

fn info(text: &str) -> ProbeEvent {
    ProbeEvent::Info(Ok(read(text)))
}

fn failure(probe: &mut Probe, event: ProbeEvent) -> ControlError {
    match probe.step(&config(), event) {
        ProbeActionOf::Fail(e) => e,
        other => panic!("{:?}", other),
    }
}

#[test]
fn the_browser_of_the_task_is_used() {
    let config = config();
    let mut probe = Probe::new();
    assert!(matches!(
        probe.step(&config, ProbeEvent::Directory(true)),
        ProbeActionOf::NextEntry
    ));
    match probe.step(&config, entry("a.sock", true)) {
        ProbeActionOf::Open(path) => assert_eq!(path, b"/sockets/a.sock"),
        other => panic!("{:?}", other),
    }
    assert!(matches!(probe.step(&config, ProbeEvent::Opened(Ok(()))), ProbeActionOf::AskInfo));
    assert!(matches!(
        probe.step(
            &config,
            info("{\"type\":\"iab\",\"metadata\":{\"codexSessionId\":\"task-1\"}}")
        ),
        ProbeActionOf::Use
    ));
}

#[test]
fn other_browsers_are_passed_over() {
    let config = config();
    let mut probe = Probe::new();
    for text in [
        "{\"type\":\"extension\",\"metadata\":{\"codexSessionId\":\"task-1\"}}",
        "{\"type\":\"iab\",\"metadata\":{\"codexSessionId\":\"task-2\"}}",
        "{\"type\":\"iab\",\"metadata\":{}}",
        "{\"type\":\"iab\"}",
        "{\"metadata\":{\"codexSessionId\":\"task-1\"}}",
        "null",
    ] {
        assert!(matches!(probe.step(&config, info(text)), ProbeActionOf::NextEntry), "{}", text);
    }
}

#[test]
fn only_sockets_are_tried() {
    let config = config();
    let mut probe = Probe::new();
    for (name, is_socket) in [("a.sock", false), ("a.txt", true), (".sock", true), ("a", true)] {
        assert!(
            matches!(probe.step(&config, entry(name, is_socket)), ProbeActionOf::NextEntry),
            "{}",
            name
        );
    }
}

#[test]
fn a_search_without_a_match_tells_what_failed() {
    let config = config();
    let mut probe = Probe::new();
    let lead = "no Codex in-app browser socket matched task task-1 in /sockets; open the side-pane Browser for ";
    let tail = "retry. probes: ";
    let text = failure(&mut probe, ProbeEvent::Entry(None)).message();
    assert!(text.starts_with(lead));
    assert!(text.ends_with(&format!("task and {}", tail)));
    for k in 0..6 {
        probe.step(&config, entry(&format!("{}.sock", k), true));
        let event = if k % 2 == 0 {
            ProbeEvent::Opened(Err("connect to it: refused".to_owned()))
        } else {
            ProbeEvent::Info(Err(ErrorOf::Outside("early eof".to_owned())))
        };
        assert!(matches!(probe.step(&config, event), ProbeActionOf::NextEntry));
    }
    let text = failure(&mut probe, ProbeEvent::Entry(None)).message();
    assert!(text.ends_with(
        "probes: /sockets/0.sock: connect to it: refused | /sockets/1.sock: early eof | /sockets/2.sock: connect to it: refused | /sockets/3.sock: early eof"
    ));
}

#[test]
fn a_directory_that_cannot_be_read_ends_the_search() {
    let mut probe = Probe::new();
    assert_eq!(
        failure(&mut probe, ProbeEvent::Directory(false)).message(),
        "read /sockets"
    );
    assert_eq!(
        failure(&mut probe, ProbeEvent::EntryFailed("stale handle".to_owned())),
        ErrorOf::Outside("stale handle".to_owned())
    );
}
