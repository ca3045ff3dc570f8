use rust_browser_control::config::BrowserConfig;
use rust_browser_control::controller::BrowserController;
use rust_browser_control::error::{ControlError, ErrorOf};
use rust_browser_control::files::{Listed, Stamp};
use rust_browser_control::json::{json_text, parse_json, Json};
use rust_browser_control::operation::Operation;
use rust_browser_control::protocol::{Call, CallOf, CommandOf};
use rust_browser_control::script::{
    checked_expression, find_select_expression, locate_expression, presence_expression,
    select_expression, snapshot_expression, type_expression, PAGE_IDENTITY, READY_STATE,
};
use rust_browser_control::tabs::Tab;
use rust_browser_control::task::{Action, ActionOf, Event, OutcomeOf};

fn config() -> BrowserConfig {
    BrowserConfig {
        socket_dir: b"/sockets".to_vec(),
        sessions_root: b"/sessions".to_vec(),
        session_id: "task-1".to_owned(),
        download_dir: b"/down".to_vec(),
        screenshot_dir: b"/shots".to_vec(),
        allowed_hosts: vec!["example.com".to_owned(), "b.org".to_owned()],
    }
}

fn read(text: &str) -> Json {
    parse_json(text.as_bytes()).unwrap()
}

fn number(x: f64) -> serde_json::Number {
    serde_json::Number::from_f64(x).unwrap()
}

fn tab(id: u64, active: bool) -> Tab {
    Tab { id, title: format!("t{}", id), url: format!("https://{}/", id), active }
}

fn reply(text: &str) -> Event {
    Event::Reply(Ok(read(text)))
}

fn value(text: &str) -> Event {
    reply(&format!("{{\"result\":{{\"value\":{}}}}}", text))
}

fn refusal() -> Event {
    Event::Reply(Err(ErrorOf::Outside("broken pipe".to_owned())))
}

fn file(name: &str, size: u64, modified: i128) -> Listed {
    Listed {
        name: name.as_bytes().to_vec(),
        is_file: true,
        stamp: Stamp { size, modified: Some(modified) },
    }
}

fn evaluates(tab: u64, script: &str) -> Call {
    CallOf::Cdp { tab, command: CommandOf::Evaluate(script.to_owned()) }
}

struct Drive {
    controller: BrowserController,
    operation: Operation,
    action: Action,
}

impl Drive {
    fn of(controller: BrowserController, start: (Operation, Action)) -> Drive {
        Drive { controller, operation: start.0, action: start.1 }
    }

    fn start(f: fn(&BrowserController) -> (Operation, Action)) -> Drive {
        let controller = BrowserController::new(config());
        let start = f(&controller);
        Drive::of(controller, start)
    }

    fn again(self, f: fn(&BrowserController) -> (Operation, Action)) -> Drive {
        let start = f(&self.controller);
        Drive::of(self.controller, start)
    }

    fn tell(&mut self, event: Event) {
        self.action = self.controller.advance(&mut self.operation, event);
    }

    fn sent(&self) -> &Call {
        match &self.action {
            ActionOf::Send(call) => call,
            other => panic!("{:?}", other),
        }
    }

    fn paused(&self) -> u64 {
        match &self.action {
            ActionOf::Pause(ms) => *ms,
            other => panic!("{:?}", other),
        }
    }

    fn text(&self) -> &str {
        match &self.action {
            ActionOf::Finish(Ok(OutcomeOf::Text(text))) => text,
            other => panic!("{:?}", other),
        }
    }

    fn error(&self) -> &ControlError {
        match &self.action {
            ActionOf::Finish(Err(e)) => e,
            other => panic!("{:?}", other),
        }
    }

    fn connect(&mut self) {
        assert!(matches!(self.action, ActionOf::Connect));
        self.tell(Event::Connected(Ok((b"/sockets/a.sock".to_vec(), "turn-9".to_owned()))));
    }

    fn attach(&mut self) {
        self.connect();
        assert!(matches!(self.action, ActionOf::ListTabs));
        self.tell(Event::Tabs(Ok(vec![tab(3, false), tab(5, true)])));
        assert_eq!(*self.sent(), CallOf::Attach(5));
        self.tell(reply("{}"));
    }

    fn click_at(&mut self, x: f64, y: f64) {
        self.hover_at(x, y);
        assert_eq!(
            *self.sent(),
            CallOf::Cdp {
                tab: 5,
                command: CommandOf::MousePressed { x: number(x), y: number(y) }
            }
        );
        self.tell(reply("{}"));
        assert_eq!(
            *self.sent(),
            CallOf::Cdp {
                tab: 5,
                command: CommandOf::MouseReleased { x: number(x), y: number(y) }
            }
        );
        self.tell(reply("{}"));
    }

    fn hover_at(&mut self, x: f64, y: f64) {
        assert_eq!(
            *self.sent(),
            CallOf::MoveMouse { tab: 5, x: number(x), y: number(y) }
        );
        self.tell(reply("null"));
        assert_eq!(
            *self.sent(),
            CallOf::Cdp {
                tab: 5,
                command: CommandOf::MouseMoved { x: number(x), y: number(y) }
            }
        );
        self.tell(reply("{}"));
    }

    fn become_ready(&mut self) {
        assert!(matches!(self.action, ActionOf::StartTimer));
        self.tell(Event::Started);
        assert_eq!(*self.sent(), evaluates(5, READY_STATE));
        self.tell(value("\"complete\""));
    }
}

#[test]
fn launch_attaches_without_navigating() {
    let mut d = Drive::start(|c| c.launch(None));
    assert!(!d.operation.exclusive());
    d.attach();
    assert!(matches!(d.action, ActionOf::PrepareDirs));
    d.tell(Event::Prepared { download: true, screenshot: true });
    assert_eq!(
        *d.sent(),
        CallOf::Cdp { tab: 5, command: CommandOf::DownloadBehavior("/down".to_owned()) }
    );
    d.tell(refusal());
    assert_eq!(*d.sent(), evaluates(5, PAGE_IDENTITY));
    d.tell(value("{\"url\":\"u\",\"title\":\"t\"}"));
    assert_eq!(
        d.text(),
        "Codex in-app browser ready\nsocket: /sockets/a.sock\ntask: task-1\ntab: 5\ndownloads: /down\npage: {\"title\":\"t\",\"url\":\"u\"}"
    );
}

#[test]
fn launch_opens_an_allowed_page() {
    let mut d = Drive::start(|c| c.launch(Some("https://www.EXAMPLE.com/a")));
    d.attach();
    assert_eq!(
        *d.sent(),
        CallOf::Cdp {
            tab: 5,
            command: CommandOf::Navigate("https://www.example.com/a".to_owned())
        }
    );
    d.tell(reply("{}"));
    d.become_ready();
    assert!(matches!(d.action, ActionOf::PrepareDirs));
    d.tell(Event::Prepared { download: false, screenshot: false });
    assert_eq!(*d.sent(), evaluates(5, PAGE_IDENTITY));
    d.tell(value("null"));
    assert!(d.text().ends_with("\npage: null"));
}

#[test]
fn launch_refuses_a_page_that_is_not_allowed() {
    let mut d = Drive::start(|c| c.launch(Some("https://evil-example.com/")));
    d.attach();
    assert_eq!(
        d.error().message(),
        "host evil-example.com is not allowed; configured hosts: example.com, b.org"
    );
}

#[test]
fn status_tells_what_the_connection_leads_to() {
    let mut d = Drive::start(|c| c.status());
    d.connect();
    assert_eq!(*d.sent(), CallOf::GetInfo);
    d.tell(reply("{\"name\":\"Side pane\"}"));
    assert!(matches!(d.action, ActionOf::ListTabs));
    d.tell(Event::Tabs(Ok(vec![tab(1, true), tab(2, false)])));
    assert_eq!(
        d.text(),
        "connected: true\nbackend: Side pane\nsocket: /sockets/a.sock\ntask: task-1\nturn: turn-9\ntabs: 2\ndownloads: /down\nscreenshots: /shots\nallowed hosts: example.com, b.org"
    );
    let mut d = Drive::start(|c| c.status());
    d.connect();
    d.tell(reply("{}"));
    d.tell(Event::Tabs(Ok(vec![])));
    assert!(d.text().starts_with("connected: true\nbackend: Codex in-app browser\nsocket: "));
}

#[test]
fn tabs_are_listed() {
    let mut d = Drive::start(|c| c.list_tabs());
    d.connect();
    d.tell(Event::Tabs(Ok(vec![tab(7, true)])));
    match &d.action {
        ActionOf::Finish(Ok(OutcomeOf::Tabs(tabs))) => {
            assert_eq!(tabs.len(), 1);
            assert_eq!(tabs[0].id, 7);
            assert_eq!(tabs[0].title, "t7");
            assert!(tabs[0].active);
        }
        other => panic!("{:?}", other),
    }
}

#[test]
fn a_failed_connection_is_told() {
    let mut d = Drive::start(|c| c.list_tabs());
    d.tell(Event::Connected(Err(ErrorOf::Sockets("/sockets".to_owned()))));
    assert_eq!(*d.error(), ErrorOf::Sockets("/sockets".to_owned()));
    let mut d = Drive::start(|c| c.list_tabs());
    d.connect();
    d.tell(Event::Tabs(Err(ErrorOf::Outside("missing field `id`".to_owned()))));
    assert_eq!(d.error().message(), "missing field `id`");
}

#[test]
fn a_page_is_opened_in_a_new_tab_that_is_then_preferred() {
    let mut d = Drive::start(|c| c.open_tab("http://b.org").unwrap());
    d.connect();
    assert_eq!(*d.sent(), CallOf::CreateTab);
    d.tell(reply("{\"tabId\":\"5\"}"));
    assert_eq!(*d.sent(), CallOf::Attach(5));
    d.tell(reply("{}"));
    assert_eq!(
        *d.sent(),
        CallOf::Cdp { tab: 5, command: CommandOf::Navigate("http://b.org/".to_owned()) }
    );
    d.tell(reply("{}"));
    d.become_ready();
    d.tell(value("{\"url\":\"http://b.org/\",\"title\":\"B\"}"));
    assert_eq!(d.text(), "{\n  \"title\": \"B\",\n  \"url\": \"http://b.org/\"\n}");
    let mut d = d.again(|c| c.snapshot(None));
    d.connect();
    d.tell(Event::Tabs(Ok(vec![tab(3, false), tab(5, false)])));
    assert_eq!(*d.sent(), CallOf::Attach(5));
}

#[test]
fn the_active_tab_goes_before_the_one_used_last() {
    let mut d = Drive::start(|c| c.snapshot(Some("3")));
    d.connect();
    d.tell(Event::Tabs(Ok(vec![tab(3, false), tab(5, true)])));
    assert_eq!(*d.sent(), CallOf::Attach(3));
    d.tell(reply("{}"));
    d.tell(value("1"));
    let mut d = d.again(|c| c.snapshot(None));
    d.connect();
    d.tell(Event::Tabs(Ok(vec![tab(3, false), tab(5, true)])));
    assert_eq!(*d.sent(), CallOf::Attach(5));
}

#[test]
fn a_new_tab_is_preferred_even_where_it_cannot_be_attached() {
    let mut d = Drive::start(|c| c.open_tab("http://b.org").unwrap());
    d.connect();
    d.tell(reply("5"));
    d.tell(refusal());
    assert_eq!(d.error().message(), "broken pipe");
    let mut d = d.again(|c| c.snapshot(None));
    d.connect();
    d.tell(Event::Tabs(Ok(vec![tab(3, false), tab(5, false)])));
    assert_eq!(*d.sent(), CallOf::Attach(5));
}

#[test]
fn a_new_tab_needs_an_id() {
    let mut d = Drive::start(|c| c.open_tab("http://b.org").unwrap());
    d.connect();
    d.tell(reply("{}"));
    assert_eq!(*d.error(), ErrorOf::NoTabId);
}

#[test]
fn pages_that_are_not_allowed_are_not_opened() {
    let controller = BrowserController::new(config());
    assert_eq!(controller.open_tab("file:///etc/passwd").unwrap_err(), ErrorOf::NotHttp);
    assert_eq!(
        controller.navigate("x", None).unwrap_err(),
        ErrorOf::InvalidUrl("x".to_owned())
    );
}

#[test]
fn navigation_waits_until_the_page_is_ready() {
    let mut d = Drive::start(|c| c.navigate("http://b.org", Some("3")).unwrap());
    d.connect();
    d.tell(Event::Tabs(Ok(vec![tab(3, false), tab(5, true)])));
    assert_eq!(*d.sent(), CallOf::Attach(3));
    d.tell(reply("{}"));
    d.tell(reply("{}"));
    assert!(matches!(d.action, ActionOf::StartTimer));
    d.tell(Event::Started);
    d.tell(value("\"loading\""));
    assert!(matches!(d.action, ActionOf::ReadTimer));
    d.tell(Event::Elapsed(19_999));
    assert_eq!(d.paused(), 200);
    d.tell(Event::Paused);
    assert_eq!(*d.sent(), evaluates(3, READY_STATE));
    d.tell(refusal());
    assert!(matches!(d.action, ActionOf::ReadTimer));
    d.tell(Event::Elapsed(20_000));
    assert_eq!(*d.error(), ErrorOf::NotReady(20_000));
}

#[test]
fn a_tab_id_that_is_none_is_refused_once_the_tabs_are_known() {
    let mut d = Drive::start(|c| c.snapshot(Some("abc")));
    d.connect();
    d.tell(Event::Tabs(Ok(vec![tab(3, true)])));
    assert_eq!(*d.error(), ErrorOf::TabId("abc".to_owned()));
}

#[test]
fn a_tab_of_the_user_is_taken_over_for_want_of_another() {
    let mut d = Drive::start(|c| c.snapshot(None));
    d.connect();
    d.tell(Event::Tabs(Ok(vec![])));
    assert_eq!(*d.sent(), CallOf::GetUserTabs);
    d.tell(reply("[{\"id\":8},{\"id\":9,\"active\":true}]"));
    assert_eq!(*d.sent(), CallOf::ClaimUserTab(9));
    d.tell(reply("{}"));
    assert_eq!(*d.sent(), CallOf::Attach(9));
    d.tell(reply("{}"));
    assert_eq!(*d.sent(), evaluates(9, &snapshot_expression(9)));
}

#[test]
fn a_tab_is_made_for_want_of_any() {
    for accounts in [refusal(), reply("[]"), reply("[{\"active\":true}]"), reply("null")] {
        let mut d = Drive::start(|c| c.snapshot(Some("4")));
        d.connect();
        d.tell(Event::Tabs(Ok(vec![])));
        d.tell(accounts);
        assert_eq!(*d.sent(), CallOf::CreateTab);
        d.tell(reply("{\"id\":11}"));
        assert_eq!(*d.sent(), CallOf::Attach(11));
    }
    let mut d = Drive::start(|c| c.snapshot(None));
    d.connect();
    d.tell(Event::Tabs(Ok(vec![])));
    d.tell(refusal());
    d.tell(reply("{}"));
    assert_eq!(*d.error(), ErrorOf::NoTabId);
}

#[test]
fn a_snapshot_is_indented() {
    let mut d = Drive::start(|c| c.snapshot(None));
    d.attach();
    assert_eq!(*d.sent(), evaluates(5, &snapshot_expression(5)));
    d.tell(value("{\"tabId\":5}"));
    assert_eq!(d.text(), "{\n  \"tabId\": 5\n}");
}

#[test]
fn the_cursor_is_moved() {
    let mut d = Drive::start(|c| c.move_cursor(number(10.25), number(7.0), None));
    assert!(d.operation.exclusive());
    d.attach();
    d.hover_at(10.25, 7.0);
    assert_eq!(d.text(), "moved visible Codex cursor to (10.2, 7.0) in tab 5");
}

#[test]
fn an_element_is_clicked() {
    let mut d = Drive::start(|c| c.click(Some("#go"), None, None).unwrap());
    assert!(d.operation.exclusive());
    d.attach();
    assert_eq!(*d.sent(), evaluates(5, &locate_expression(Some("#go"), None).unwrap()));
    d.tell(value("{\"ok\":true,\"x\":4,\"y\":2.5}"));
    d.click_at(4.0, 2.5);
    assert_eq!(d.paused(), 500);
    d.tell(Event::Paused);
    assert_eq!(
        d.text(),
        "{\n  \"clicked\": {\n    \"ok\": true,\n    \"x\": 4,\n    \"y\": 2.5\n  },\n  \"tabId\": 5,\n  \"visibleCursor\": true\n}"
    );
}

#[test]
fn a_click_fails_where_the_element_is_missing_or_has_no_point() {
    let mut d = Drive::start(|c| c.click(None, Some("Go"), None).unwrap());
    d.attach();
    d.tell(value("{\"ok\":false,\"reason\":\"not found\"}"));
    assert_eq!(
        d.error().message(),
        "element not found or not clickable: {\"ok\":false,\"reason\":\"not found\"}"
    );
    let mut d = Drive::start(|c| c.click(None, Some("Go"), None).unwrap());
    d.attach();
    d.tell(value("{\"ok\":true,\"x\":1}"));
    assert_eq!(d.error().message(), "point has no numeric y coordinate: {\"ok\":true,\"x\":1}");
    let controller = BrowserController::new(config());
    assert_eq!(controller.click(None, None, None).unwrap_err(), ErrorOf::Locator);
}

#[test]
fn a_failed_call_ends_a_click() {
    for steps in 0..4 {
        let mut d = Drive::start(|c| c.click(Some("#go"), None, None).unwrap());
        d.attach();
        d.tell(value("{\"ok\":true,\"x\":1,\"y\":1}"));
        for _ in 0..steps {
            d.tell(reply("{}"));
        }
        d.tell(refusal());
        assert_eq!(d.error().message(), "broken pipe");
    }
}

#[test]
fn text_is_typed_and_submitted() {
    let mut d = Drive::start(|c| c.type_text("#q", "h\u{e9}llo", true, true, None));
    assert!(d.operation.exclusive());
    d.attach();
    assert_eq!(*d.sent(), evaluates(5, &locate_expression(Some("#q"), None).unwrap()));
    d.tell(value("{\"ok\":true,\"x\":1,\"y\":2}"));
    d.click_at(1.0, 2.0);
    assert_eq!(*d.sent(), evaluates(5, &type_expression("#q", "h\u{e9}llo", true)));
    d.tell(value("{\"ok\":true}"));
    assert_eq!(d.paused(), 50);
    d.tell(Event::Paused);
    for kind in ["rawKeyDown", "keyUp"] {
        assert_eq!(
            *d.sent(),
            CallOf::Cdp {
                tab: 5,
                command: CommandOf::Key {
                    kind: kind.to_owned(),
                    key: "Enter".to_owned(),
                    code: "Enter".to_owned(),
                    virtual_key: 13,
                    modifiers: 0,
                }
            }
        );
        d.tell(reply("{}"));
    }
    assert_eq!(
        d.text(),
        "typed 5 characters into #q; submitted: true; visible cursor: true"
    );
}

#[test]
fn text_is_typed_without_submission() {
    let mut d = Drive::start(|c| c.type_text("#q", "", false, false, None));
    d.attach();
    d.tell(value("{\"ok\":true,\"x\":1,\"y\":2}"));
    d.click_at(1.0, 2.0);
    d.tell(value("{\"ok\":true}"));
    assert_eq!(
        d.text(),
        "typed 0 characters into #q; submitted: false; visible cursor: true"
    );
    let mut d = Drive::start(|c| c.type_text("#q", "x", false, true, None));
    d.attach();
    d.tell(value("{\"ok\":true,\"x\":1,\"y\":2}"));
    d.click_at(1.0, 2.0);
    d.tell(value("{\"ok\":false,\"reason\":\"not found\"}"));
    assert_eq!(
        d.error().message(),
        "could not type into #q: {\"ok\":false,\"reason\":\"not found\"}"
    );
    let mut d = Drive::start(|c| c.type_text("", "x", false, true, None));
    d.attach();
    assert_eq!(*d.error(), ErrorOf::Locator);
}

#[test]
fn an_option_is_selected() {
    let mut d = Drive::start(|c| c.select_option("select", 2, "Two", None));
    assert!(d.operation.exclusive());
    d.attach();
    assert_eq!(*d.sent(), evaluates(5, &find_select_expression("select", 2)));
    d.tell(value("{\"ok\":true,\"x\":1.5,\"y\":2}"));
    d.click_at(1.5, 2.0);
    assert_eq!(*d.sent(), evaluates(5, &select_expression("select", 2, "Two")));
    d.tell(value("{\"ok\":true,\"value\":\"2\"}"));
    assert_eq!(
        d.text(),
        "{\n  \"selected\": {\n    \"ok\": true,\n    \"value\": \"2\"\n  },\n  \"tabId\": 5,\n  \"visibleCursor\": true\n}"
    );
}

#[test]
fn a_selection_fails_without_the_element_or_the_option() {
    let mut d = Drive::start(|c| c.select_option("select", 2, "Two", None));
    d.attach();
    d.tell(value("{\"ok\":false}"));
    assert_eq!(d.error().message(), "select element not found: {\"ok\":false}");
    let mut d = Drive::start(|c| c.select_option("select", 2, "Two", None));
    d.attach();
    d.tell(value("{\"ok\":true,\"x\":1,\"y\":2}"));
    d.click_at(1.0, 2.0);
    d.tell(value("{\"ok\":false}"));
    assert_eq!(d.error().message(), "could not select option: {\"ok\":false}");
}

#[test]
fn a_checkbox_is_clicked_where_it_differs() {
    let mut d = Drive::start(|c| c.set_checked("#c", true, None));
    assert!(d.operation.exclusive());
    d.attach();
    assert_eq!(*d.sent(), evaluates(5, &checked_expression("#c")));
    d.tell(value("{\"ok\":true,\"checked\":false,\"x\":1,\"y\":2}"));
    d.click_at(1.0, 2.0);
    assert_eq!(d.paused(), 100);
    d.tell(Event::Paused);
    assert_eq!(*d.sent(), evaluates(5, &checked_expression("#c")));
    d.tell(value("{\"ok\":true,\"checked\":true}"));
    assert_eq!(
        d.text(),
        "{\n  \"checked\": true,\n  \"selector\": \"#c\",\n  \"tabId\": 5,\n  \"visibleCursor\": true\n}"
    );
}

#[test]
fn a_checkbox_that_is_set_again_is_not_clicked_again() {
    let set = "{\"ok\":true,\"checked\":true,\"x\":1,\"y\":2}";
    let mut d = Drive::start(|c| c.set_checked("#c", true, None));
    d.attach();
    d.tell(value("{\"ok\":true,\"checked\":false,\"x\":1,\"y\":2}"));
    d.click_at(1.0, 2.0);
    d.tell(Event::Paused);
    d.tell(value(set));
    let told = d.text().to_owned();
    let mut d = d.again(|c| c.set_checked("#c", true, None));
    d.attach();
    d.tell(value(set));
    d.hover_at(1.0, 2.0);
    assert_eq!(*d.sent(), evaluates(5, &checked_expression("#c")));
    d.tell(value(set));
    assert_eq!(d.text(), told);
}

#[test]
fn a_checkbox_is_left_alone_where_it_agrees() {
    let mut d = Drive::start(|c| c.set_checked("#c", false, None));
    d.attach();
    d.tell(value("{\"ok\":true,\"checked\":false,\"x\":1,\"y\":2}"));
    d.hover_at(1.0, 2.0);
    assert_eq!(*d.sent(), evaluates(5, &checked_expression("#c")));
    d.tell(value("{\"ok\":true,\"checked\":true}"));
    assert_eq!(
        d.error().message(),
        "checkable element did not reach requested state: {\"checked\":true,\"ok\":true}"
    );
    let mut d = Drive::start(|c| c.set_checked("#c", false, None));
    d.attach();
    d.tell(value("{\"ok\":false}"));
    assert_eq!(d.error().message(), "checkable element not found: {\"ok\":false}");
}

fn scroll_down(c: &BrowserController) -> (Operation, Action) {
    c.scroll(
        (number(0.0), number(300.0)),
        (number(-0.0), number(-300.0)),
        None,
        None,
        None,
        None,
    )
    .unwrap()
}

#[test]
fn the_page_is_scrolled_in_the_middle() {
    let mut d = Drive::start(scroll_down);
    assert!(d.operation.exclusive());
    d.attach();
    assert_eq!(*d.sent(), CallOf::Cdp { tab: 5, command: CommandOf::LayoutMetrics });
    d.tell(reply("{\"cssVisualViewport\":{\"clientWidth\":801}}"));
    match &d.action {
        ActionOf::Halve(width, height) => {
            assert_eq!(width.to_string(), "801");
            assert_eq!(height.to_string(), "720");
        }
        other => panic!("{:?}", other),
    }
    d.tell(Event::Halved(number(400.5), number(360.0)));
    d.hover_at(400.5, 360.0);
    assert_eq!(
        *d.sent(),
        CallOf::Cdp {
            tab: 5,
            command: CommandOf::ScrollGesture {
                x: number(400.5),
                y: number(360.0),
                dx: number(-0.0),
                dy: number(-300.0),
            }
        }
    );
    d.tell(reply("{}"));
    assert_eq!(d.paused(), 250);
    d.tell(Event::Paused);
    assert_eq!(
        d.text(),
        "{\n  \"point\": {\n    \"x\": 400.5,\n    \"y\": 360.0\n  },\n  \"scrollX\": 0.0,\n  \"scrollY\": 300.0,\n  \"tabId\": 5,\n  \"visibleCursor\": true\n}"
    );
}

#[test]
fn the_usual_viewport_is_assumed_where_the_page_gives_none() {
    let mut d = Drive::start(scroll_down);
    d.attach();
    d.tell(reply("{\"cssVisualViewport\":{\"clientWidth\":\"wide\"}}"));
    match &d.action {
        ActionOf::Halve(width, height) => {
            assert_eq!(width.to_string(), "1280");
            assert_eq!(height.to_string(), "720");
        }
        other => panic!("{:?}", other),
    }
    let mut d = Drive::start(scroll_down);
    d.attach();
    d.tell(reply("{}"));
    assert_eq!(*d.error(), ErrorOf::NoViewport);
}

#[test]
fn the_page_is_scrolled_at_a_point_or_an_element() {
    let mut d = Drive::start(|c| {
        c.scroll(
            (number(1.0), number(2.0)),
            (number(-1.0), number(-2.0)),
            None,
            Some(number(8.0)),
            Some(number(9.0)),
            None,
        )
        .unwrap()
    });
    d.attach();
    d.hover_at(8.0, 9.0);
    assert!(matches!(
        d.sent(),
        CallOf::Cdp { tab: 5, command: CommandOf::ScrollGesture { .. } }
    ));
    let mut d = Drive::start(|c| {
        c.scroll(
            (number(1.0), number(2.0)),
            (number(-1.0), number(-2.0)),
            Some(".list"),
            Some(number(8.0)),
            Some(number(9.0)),
            None,
        )
        .unwrap()
    });
    d.attach();
    assert_eq!(*d.sent(), evaluates(5, &locate_expression(Some(".list"), None).unwrap()));
    d.tell(value("{\"ok\":true,\"x\":1,\"y\":2}"));
    d.hover_at(1.0, 2.0);
    assert!(matches!(
        d.sent(),
        CallOf::Cdp { tab: 5, command: CommandOf::ScrollGesture { .. } }
    ));
}

#[test]
fn half_a_point_is_none() {
    let controller = BrowserController::new(config());
    let distance = || (number(0.0), number(1.0));
    assert_eq!(
        controller
            .scroll(distance(), distance(), None, Some(number(1.0)), None, None)
            .unwrap_err(),
        ErrorOf::HalfPoint
    );
    assert_eq!(
        controller
            .scroll(distance(), distance(), Some("a"), None, Some(number(1.0)), None)
            .unwrap_err(),
        ErrorOf::HalfPoint
    );
}

#[test]
fn an_element_is_waited_for() {
    let mut d = Drive::start(|c| c.wait_for(None, Some("Done"), 400, None).unwrap());
    assert!(!d.operation.exclusive());
    d.attach();
    assert!(matches!(d.action, ActionOf::StartTimer));
    d.tell(Event::Started);
    let script = presence_expression(None, Some("Done")).unwrap();
    assert_eq!(*d.sent(), evaluates(5, &script));
    d.tell(value("{\"found\":false}"));
    assert!(matches!(d.action, ActionOf::ReadTimer));
    d.tell(Event::Elapsed(399));
    assert_eq!(d.paused(), 250);
    d.tell(Event::Paused);
    assert_eq!(*d.sent(), evaluates(5, &script));
    d.tell(value("{\"found\":true}"));
    assert_eq!(d.text(), "{\n  \"found\": true\n}");
}

#[test]
fn a_wait_ends_in_time() {
    let mut d = Drive::start(|c| c.wait_for(Some("#x"), None, 400, None).unwrap());
    d.attach();
    d.tell(Event::Started);
    d.tell(value("null"));
    d.tell(Event::Elapsed(400));
    assert_eq!(*d.error(), ErrorOf::NotFound(400));
    let mut d = Drive::start(|c| c.wait_for(Some("#x"), None, 400, None).unwrap());
    d.attach();
    d.tell(Event::Started);
    d.tell(reply("{\"exceptionDetails\":1}"));
    assert_eq!(d.error().message(), "JavaScript evaluation failed: 1");
    let controller = BrowserController::new(config());
    assert_eq!(
        controller.wait_for(Some("a"), Some("b"), 1, None).unwrap_err(),
        ErrorOf::Locator
    );
}

#[test]
fn a_screenshot_is_saved_under_a_safe_name() {
    let mut d = Drive::start(|c| c.screenshot(Some("../my page"), None));
    assert!(!d.operation.exclusive());
    assert!(matches!(d.action, ActionOf::PrepareDirs));
    d.tell(Event::Prepared { download: true, screenshot: true });
    d.attach();
    assert_eq!(*d.sent(), CallOf::Cdp { tab: 5, command: CommandOf::CaptureScreenshot });
    d.tell(reply("{\"data\":\"iVBORw==\"}"));
    assert!(matches!(d.action, ActionOf::ReadClock));
    d.tell(Event::Clock(99));
    match &d.action {
        ActionOf::Save { path, image } => {
            assert_eq!(path, b"/shots/my_page.png");
            assert_eq!(image, b"\x89PNG");
        }
        other => panic!("{:?}", other),
    }
    d.tell(Event::Saved(true));
    assert_eq!(d.text(), "screenshot: /shots/my_page.png\nbytes: 4");
}

#[test]
fn a_screenshot_can_fail() {
    let mut d = Drive::start(|c| c.screenshot(None, None));
    d.tell(Event::Prepared { download: true, screenshot: false });
    assert_eq!(*d.error(), ErrorOf::ScreenshotDir("/shots".to_owned()));
    for (answer, e) in [("{}", ErrorOf::NoImage), ("{\"data\":\"?\"}", ErrorOf::BadImage)] {
        let mut d = Drive::start(|c| c.screenshot(None, None));
        d.tell(Event::Prepared { download: true, screenshot: true });
        d.attach();
        d.tell(reply(answer));
        assert_eq!(*d.error(), e);
    }
    let mut d = Drive::start(|c| c.screenshot(None, None));
    d.tell(Event::Prepared { download: true, screenshot: true });
    d.attach();
    d.tell(reply("{\"data\":\"\"}"));
    d.tell(Event::Clock(1234));
    d.tell(Event::Saved(false));
    assert_eq!(d.error().message(), "write /shots/screenshot-1234.png");
}

fn download() -> Drive {
    let mut d = Drive::start(|c| {
        c.click_and_wait_for_download(None, Some("Get"), 1000, None).unwrap()
    });
    assert!(d.operation.exclusive());
    assert!(matches!(d.action, ActionOf::PrepareDirs));
    d.tell(Event::Prepared { download: true, screenshot: true });
    assert!(matches!(d.action, ActionOf::ListDownloads));
    d.tell(Event::Downloads(Ok(vec![file("old.txt", 3, 1)])));
    d.attach();
    assert!(matches!(d.action, ActionOf::PrepareDirs));
    d.tell(Event::Prepared { download: true, screenshot: true });
    assert_eq!(
        *d.sent(),
        CallOf::Cdp { tab: 5, command: CommandOf::DownloadBehavior("/down".to_owned()) }
    );
    d.tell(reply("{}"));
    assert_eq!(*d.sent(), CallOf::Cdp { tab: 5, command: CommandOf::FetchEnable });
    d.tell(reply("{}"));
    assert_eq!(*d.sent(), evaluates(5, &locate_expression(None, Some("Get")).unwrap()));
    d.tell(value("{\"ok\":true,\"x\":1,\"y\":2}"));
    d.click_at(1.0, 2.0);
    assert!(matches!(d.action, ActionOf::StartTimer));
    d.tell(Event::Started);
    assert!(matches!(d.action, ActionOf::ListDownloads));
    d
}

fn listen(d: &mut Drive) {
    d.tell(Event::Downloads(Ok(vec![file("old.txt", 3, 1)])));
    assert!(matches!(d.action, ActionOf::ReadTimer));
    d.tell(Event::Elapsed(999));
    assert!(matches!(d.action, ActionOf::NextEvent(250)));
}

fn pause_of(tab: u64, url: &str) -> Event {
    Event::Backend(Ok(Some(read(&format!(
        "{{\"method\":\"onCDPEvent\",\"params\":{{\"method\":\"Fetch.requestPaused\",\"source\":{{\"tabId\":{}}},\"params\":{{\"requestId\":\"r1\",\"request\":{{\"url\":\"{}\"}}}}}}}}",
        tab, url
    )))))
}

fn disables(d: &mut Drive) {
    assert_eq!(*d.sent(), CallOf::Cdp { tab: 5, command: CommandOf::FetchDisable });
    d.tell(refusal());
}

#[test]
fn a_download_is_complete_when_its_file_is_there() {
    let mut d = download();
    listen(&mut d);
    d.tell(Event::Backend(Ok(None)));
    d.tell(Event::Downloads(Ok(vec![
        file("new.zip.crdownload", 5, 2),
        file("old.txt", 3, 1),
    ])));
    assert!(matches!(d.action, ActionOf::ReadTimer));
    d.tell(Event::Elapsed(0));
    d.tell(Event::Backend(Ok(None)));
    d.tell(Event::Downloads(Ok(vec![file("new.zip", 9, 2), file("old.txt", 3, 1)])));
    disables(&mut d);
    assert_eq!(
        d.text(),
        "download complete: /down/new.zip\nbytes: 9\nsource URL authorized: false"
    );
}

#[test]
fn an_allowed_source_is_let_through() {
    let mut d = download();
    listen(&mut d);
    d.tell(pause_of(5, "https://files.example.com/z"));
    assert_eq!(
        *d.sent(),
        CallOf::AllowDownload { tab: 5, url: "https://files.example.com/z".to_owned() }
    );
    d.tell(reply("{}"));
    assert_eq!(
        *d.sent(),
        CallOf::Cdp { tab: 5, command: CommandOf::ContinueResponse("r1".to_owned()) }
    );
    d.tell(reply("{}"));
    assert!(matches!(d.action, ActionOf::ListDownloads));
    d.tell(Event::Downloads(Ok(vec![file("z", 1, 5)])));
    disables(&mut d);
    assert_eq!(
        d.text(),
        "download complete: /down/z\nbytes: 1\nsource URL authorized: true"
    );
}

#[test]
fn a_source_that_is_not_allowed_ends_the_download() {
    let mut d = download();
    listen(&mut d);
    d.tell(pause_of(5, "https://evil-example.com/z"));
    assert_eq!(
        d.error().message(),
        "download source URL is not allowed: https://evil-example.com/z"
    );
}

#[test]
fn the_pause_of_another_tab_is_passed_over() {
    let mut d = download();
    listen(&mut d);
    d.tell(pause_of(6, "https://evil-example.com/z"));
    assert!(matches!(d.action, ActionOf::ListDownloads));
    listen(&mut d);
    d.tell(Event::Backend(Ok(Some(read("{\"method\":\"onCDPEvent\"}")))));
    assert!(matches!(d.action, ActionOf::ListDownloads));
    listen(&mut d);
    d.tell(Event::Backend(Ok(Some(read("{\"id\":77}")))));
    assert!(matches!(d.action, ActionOf::ListDownloads));
}

#[test]
fn a_pause_that_lacks_something_ends_the_download() {
    let pause = |rest: &str| {
        read(&format!(
            "{{\"method\":\"onCDPEvent\",\"params\":{{\"method\":\"Fetch.requestPaused\",\"source\":{{\"tabId\":5}}{}}}}}",
            rest
        ))
    };
    for (rest, words) in [
        ("", "Fetch.requestPaused event had no params: "),
        (",\"params\":{\"request\":{\"url\":\"u\"}}", "Fetch.requestPaused had no requestId: "),
        (",\"params\":{\"requestId\":\"r\"}", "Fetch.requestPaused had no request URL: "),
    ] {
        let mut d = download();
        listen(&mut d);
        let message = pause(rest);
        let expected = format!("{}{}", words, json_text(&message));
        d.tell(Event::Backend(Ok(Some(message))));
        assert_eq!(d.error().message(), expected);
    }
}

fn report_of(params: &str) -> Event {
    Event::Backend(Ok(Some(read(&format!(
        "{{\"method\":\"onDownloadChange\",\"params\":{}}}",
        params
    )))))
}

#[test]
fn a_report_of_the_backend_is_held_against_the_directory() {
    for filename in ["/else/f.bin", "/down/old.txt", "/down/new.zip"] {
        let mut d = download();
        listen(&mut d);
        d.tell(report_of(&format!(
            "{{\"filename\":\"{}\",\"status\":\"complete\"}}",
            filename
        )));
        assert!(matches!(d.action, ActionOf::ListDownloads));
        d.tell(Event::Downloads(Ok(vec![file("old.txt", 3, 1), file("new.zip", 0, 2)])));
        assert!(matches!(d.action, ActionOf::ReadTimer));
        d.tell(Event::Elapsed(1000));
        disables(&mut d);
        assert_eq!(
            d.error().message(),
            format!(
                "no completed new download appeared in /down within 1000 ms; source URL authorized: false; backend filename: {}",
                filename
            )
        );
    }
}

#[test]
fn a_reported_download_is_complete_once_the_directory_shows_it() {
    let mut d = download();
    listen(&mut d);
    d.tell(report_of("{\"filename\":\"/down/new.zip\",\"status\":\"started\"}"));
    listen(&mut d);
    d.tell(report_of("{\"status\":\"complete\"}"));
    d.tell(Event::Downloads(Ok(vec![
        file("new.zip", 12, 2),
        file("old.txt", 3, 1),
        file("other.crdownload", 1, 2),
    ])));
    assert!(matches!(d.action, ActionOf::ReadTimer));
    d.tell(Event::Elapsed(10));
    d.tell(Event::Backend(Ok(None)));
    d.tell(Event::Downloads(Ok(vec![file("new.zip", 12, 2), file("old.txt", 3, 1)])));
    disables(&mut d);
    assert_eq!(
        d.text(),
        "download complete: /down/new.zip\nbytes: 12\nsource URL authorized: false"
    );
}

#[test]
fn a_report_without_a_file_is_passed_over() {
    let mut d = download();
    listen(&mut d);
    d.tell(Event::Backend(Ok(Some(read(
        "{\"method\":\"onDownloadChange\",\"params\":{\"status\":\"complete\"}}",
    )))));
    assert!(matches!(d.action, ActionOf::ListDownloads));
}

#[test]
fn a_download_that_does_not_come_ends_in_time() {
    let mut d = download();
    listen(&mut d);
    d.tell(Event::Backend(Ok(Some(read(
        "{\"method\":\"onDownloadChange\",\"params\":{\"filename\":\"/down/f\"}}",
    )))));
    d.tell(Event::Downloads(Ok(vec![])));
    d.tell(Event::Elapsed(1000));
    disables(&mut d);
    assert_eq!(
        d.error().message(),
        "no completed new download appeared in /down within 1000 ms; source URL authorized: false; backend filename: /down/f"
    );
}

#[test]
fn a_download_fails_over_what_fails_outside() {
    let mut d = download();
    d.tell(Event::Downloads(Err("permission denied".to_owned())));
    assert_eq!(d.error().message(), "permission denied");
    let mut d = download();
    listen(&mut d);
    d.tell(Event::Backend(Err(ErrorOf::Outside("early eof".to_owned()))));
    assert_eq!(d.error().message(), "early eof");
    let mut d = download();
    listen(&mut d);
    d.tell(pause_of(5, "https://b.org/"));
    d.tell(refusal());
    assert_eq!(d.error().message(), "broken pipe");
    let mut d = Drive::start(|c| {
        c.click_and_wait_for_download(Some("a"), None, 1, None).unwrap()
    });
    d.tell(Event::Prepared { download: false, screenshot: true });
    assert_eq!(d.error().message(), "create download directory /down");
    let controller = BrowserController::new(config());
    assert_eq!(
        controller.click_and_wait_for_download(None, None, 1, None).unwrap_err(),
        ErrorOf::Locator
    );
}

#[test]
fn an_answer_that_does_not_fit_ends_the_operation() {
    let mut d = Drive::start(|c| c.status());
    d.tell(Event::Paused);
    assert_eq!(*d.error(), ErrorOf::OutOfStep);
    d.tell(Event::Connected(Ok((vec![], String::new()))));
    assert_eq!(*d.error(), ErrorOf::OutOfStep);
}

#[test]
fn nothing_is_asked_for_once_an_operation_is_over() {
    let mut d = Drive::start(|c| c.snapshot(None));
    d.attach();
    d.tell(value("1"));
    assert_eq!(d.text(), "1");
    d.tell(reply("{}"));
    assert_eq!(*d.error(), ErrorOf::OutOfStep);
}

#[test]
fn the_controller_keeps_its_configuration() {
    let controller = BrowserController::new(config());
    assert_eq!(controller.config().session_id, "task-1");
}
