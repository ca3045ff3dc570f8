use rust_browser_control::client::IabClient;
use rust_browser_control::error::ErrorOf;
use rust_browser_control::json::{json_text, parse_json, Fields, Json};
use rust_browser_control::protocol::MAX_BACKEND_FRAME_BYTES;

fn client() -> IabClient {
    IabClient::new(b"/s/a.sock".to_vec(), "session".to_owned(), "turn".to_owned())
}

fn read(text: &str) -> Json {
    parse_json(text.as_bytes()).unwrap()
}

#[test]
fn a_new_connection_is_empty() {
    let c = client();
    assert_eq!(c.next_id, 1);
    assert_eq!(c.session_id, "session");
    assert_eq!(c.turn_id, "turn");
    assert_eq!(c.socket_path, b"/s/a.sock");
    assert!(c.events.is_empty());
}

#[test]
fn a_request_is_numbered_addressed_and_framed() {
    let mut c = client();
    let params = Fields::new().with("tabId", Json::unsigned(7)).object();
    let frame = c.request("attach", params).unwrap();
    let payload = "{\"id\":1,\"jsonrpc\":\"2.0\",\"method\":\"attach\",\"params\":{\"session_context\":\"live\",\"session_id\":\"session\",\"tabId\":7,\"turn_id\":\"turn\"}}";
    assert_eq!(frame.id, 1);
    assert_eq!(frame.bytes[..4], (payload.len() as u32).to_le_bytes());
    assert_eq!(String::from_utf8(frame.bytes[4..].to_vec()).unwrap(), payload);
    assert_eq!(c.next_id, 2);
    assert_eq!(c.request("getInfo", Fields::new().object()).unwrap().id, 2);
    assert_eq!(c.next_id, 3);
}

#[test]
fn a_request_carries_the_session_of_its_connection() {
    let mut c = client();
    let params = Fields::new()
        .with("session_id", Json::text("other"))
        .with("turn_id", Json::Null)
        .object();
    let frame = c.request("x", params).unwrap();
    let document = read(&String::from_utf8(frame.bytes[4..].to_vec()).unwrap());
    let params = document.get("params").unwrap();
    assert_eq!(params.get("session_id").unwrap().as_str(), Some("session"));
    assert_eq!(params.get("turn_id").unwrap().as_str(), Some("turn"));
}

#[test]
fn a_request_without_an_object_is_refused() {
    let mut c = client();
    assert_eq!(c.request("x", Json::Null).unwrap_err(), ErrorOf::ParamsNotObject);
    assert_eq!(c.next_id, 1);
}

#[test]
fn a_request_that_is_too_large_is_refused_and_still_counted() {
    let mut c = client();
    let long = "x".repeat(MAX_BACKEND_FRAME_BYTES);
    let params = Fields::new().with("text", Json::text(&long)).object();
    assert_eq!(c.request("x", params).unwrap_err(), ErrorOf::RequestTooLarge);
    assert_eq!(c.next_id, 2);
}

#[test]
fn a_header_announces_the_length() {
    assert_eq!(IabClient::frame_length([0, 0, 0, 0]), Ok(0));
    assert_eq!(IabClient::frame_length([1, 2, 3, 0]), Ok(1 + 2 * 256 + 3 * 65536));
    assert_eq!(IabClient::frame_length([0, 0, 0, 4]), Ok(64 * 1024 * 1024));
    assert_eq!(
        IabClient::frame_length([1, 0, 0, 4]),
        Err(ErrorOf::ResponseTooLarge(64 * 1024 * 1024 + 1))
    );
    assert_eq!(
        IabClient::frame_length([255, 255, 255, 255]).unwrap_err().message(),
        "browser backend response frame is too large: 4294967295 bytes"
    );
}

#[test]
fn a_frame_gives_back_what_was_framed() {
    let mut c = client();
    let params = Fields::new().with("text", Json::text(&"y".repeat(70_000))).object();
    let frame = c.request("x", params).unwrap();
    let header = [frame.bytes[0], frame.bytes[1], frame.bytes[2], frame.bytes[3]];
    assert_eq!(IabClient::frame_length(header), Ok(frame.bytes.len() - 4));
    let document = IabClient::read_message(&frame.bytes[4..]).unwrap();
    assert_eq!(document.get("id").unwrap().as_u64(), Some(1));
}

#[test]
fn an_answer_is_told_from_events() {
    let mut c = client();
    assert_eq!(c.receive(5, "m", b"{\"method\":\"first\"}"), Ok(None));
    assert_eq!(c.receive(5, "m", b"{\"id\":4,\"result\":1}"), Ok(None));
    assert_eq!(c.receive(5, "m", b"{\"id\":\"5\"}"), Ok(None));
    assert_eq!(
        c.receive(5, "m", b"{\"id\":5,\"result\":{\"a\":1}}").unwrap().map(|j| json_text(&j)),
        Some("{\"a\":1}".to_owned())
    );
    assert_eq!(c.receive(5, "m", b"{\"id\":5}"), Ok(Some(Json::Null)));
    assert_eq!(c.next_event().map(|j| json_text(&j)).as_deref(), Some("{\"method\":\"first\"}"));
    assert_eq!(c.next_event().map(|j| json_text(&j)).as_deref(), Some("{\"id\":4,\"result\":1}"));
    assert_eq!(c.next_event().map(|j| json_text(&j)).as_deref(), Some("{\"id\":\"5\"}"));
    assert_eq!(c.next_event(), None);
}

#[test]
fn a_refusal_names_the_method() {
    let mut c = client();
    let e = c.receive(5, "attach", b"{\"id\":5,\"error\":{\"code\":-1},\"result\":2}").unwrap_err();
    assert_eq!(e.message(), "browser backend attach failed: {\"code\":-1}");
    assert_eq!(
        c.accept(5, "attach", read("{\"id\":5,\"error\":null}")).unwrap_err().message(),
        "browser backend attach failed: null"
    );
}

#[test]
fn a_message_that_is_no_document_fails_in_its_own_words() {
    let mut c = client();
    assert_eq!(
        c.receive(1, "m", b"nope").unwrap_err(),
        ErrorOf::Outside("expected ident at line 1 column 2".to_owned())
    );
    assert!(IabClient::read_message(b"").is_err());
    assert!(c.events.is_empty());
}
