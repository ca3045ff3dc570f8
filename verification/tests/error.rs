use rust_browser_control::error::{ControlError, ErrorOf};
use rust_browser_control::json::Json;

fn text(s: &str) -> String {
    s.to_owned()
}

#[test]
fn every_error_has_its_words() {
    let doc = || Json::text("d");
    let cases: Vec<(ControlError, &str)> = vec![
        (ErrorOf::NoHome, "HOME is not set"),
        (
            ErrorOf::NoSession,
            "missing Codex task id; pass CODEX_THREAD_ID through the MCP environment or set RUST_BROWSER_SESSION_ID",
        ),
        (ErrorOf::NoHosts, "RUST_BROWSER_ALLOWED_HOSTS cannot be empty"),
        (ErrorOf::DownloadDir(text("/d")), "create download directory /d"),
        (ErrorOf::ScreenshotDir(text("/s")), "create screenshot directory /s"),
        (ErrorOf::InvalidUrl(text("u")), "invalid URL: u"),
        (ErrorOf::NotHttp, "only HTTP(S) navigation is allowed"),
        (ErrorOf::NoHost, "URL has no host"),
        (
            ErrorOf::HostNotAllowed { host: text("h"), configured: text("a, b") },
            "host h is not allowed; configured hosts: a, b",
        ),
        (ErrorOf::Locator, "supply exactly one non-empty locator: selector or text"),
        (ErrorOf::TabId(text("x")), "tab id must be a positive integer: x"),
        (ErrorOf::HalfPoint, "supply both x and y, or neither"),
        (ErrorOf::ParamsNotObject, "browser backend request params must be an object"),
        (ErrorOf::RequestTooLarge, "browser backend request frame is too large"),
        (
            ErrorOf::ResponseTooLarge(67108865),
            "browser backend response frame is too large: 67108865 bytes",
        ),
        (
            ErrorOf::Refused { method: text("attach"), error: doc() },
            "browser backend attach failed: \"d\"",
        ),
        (ErrorOf::Sockets(text("/s")), "read /s"),
        (ErrorOf::NoTabId, "createTab returned no tab id"),
        (ErrorOf::Script(doc()), "JavaScript evaluation failed: \"d\""),
        (
            ErrorOf::NotReady(20000),
            "page did not reach readyState=complete within 20000 ms",
        ),
        (ErrorOf::NotClickable(doc()), "element not found or not clickable: \"d\""),
        (ErrorOf::NoX(doc()), "point has no numeric x coordinate: \"d\""),
        (ErrorOf::NoY(doc()), "point has no numeric y coordinate: \"d\""),
        (
            ErrorOf::NotTyped { selector: text("#q"), reply: doc() },
            "could not type into #q: \"d\"",
        ),
        (ErrorOf::NoSelect(doc()), "select element not found: \"d\""),
        (ErrorOf::NotSelected(doc()), "could not select option: \"d\""),
        (ErrorOf::NotCheckable(doc()), "checkable element not found: \"d\""),
        (
            ErrorOf::NotChecked(doc()),
            "checkable element did not reach requested state: \"d\"",
        ),
        (ErrorOf::NoViewport, "Page.getLayoutMetrics returned no cssVisualViewport"),
        (ErrorOf::NotFound(15000), "timed out after 15000 ms waiting for element"),
        (ErrorOf::NoImage, "CDP screenshot returned no data"),
        (ErrorOf::BadImage, "decode screenshot"),
        (ErrorOf::Write(text("/p")), "write /p"),
        (ErrorOf::PausedNoParams(doc()), "Fetch.requestPaused event had no params: \"d\""),
        (ErrorOf::PausedNoId(doc()), "Fetch.requestPaused had no requestId: \"d\""),
        (ErrorOf::PausedNoUrl(doc()), "Fetch.requestPaused had no request URL: \"d\""),
        (ErrorOf::SourceNotAllowed(text("u")), "download source URL is not allowed: u"),
        (
            ErrorOf::NoDownload {
                directory: text("/d"),
                timeout_ms: 7,
                authorized: false,
                filename: None,
            },
            "no completed new download appeared in /d within 7 ms; source URL authorized: false; backend filename: none",
        ),
        (
            ErrorOf::NoDownload {
                directory: text("/d"),
                timeout_ms: 7,
                authorized: true,
                filename: Some(text("/d/f")),
            },
            "no completed new download appeared in /d within 7 ms; source URL authorized: true; backend filename: /d/f",
        ),
        (ErrorOf::NoInventory, "page_assets bundle requires inventory_id"),
        (ErrorOf::AssetsAction, "page_assets action must be list or bundle"),
        (ErrorOf::Outside(text("own words")), "own words"),
        (ErrorOf::OutOfStep, "the answer does not fit the action before it"),
    ];
    for (e, words) in cases {
        assert_eq!(e.message(), words);
    }
}

#[test]
fn a_missing_browser_is_told_at_length() {
    let e: ControlError = ErrorOf::NoBrowser {
        session: text("t"),
        directory: text("/s"),
        probes: text("p"),
    };
    assert_eq!(
        e.message(),
        format!(
            "no Codex in-app browser socket matched task t in /s; open the side-pane Browser for {} task and retry. probes: p",
            "this"
        )
    );
}
