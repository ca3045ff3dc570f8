//! What can go wrong, and the words that say so.
use crate::json::{compact, json_text, Json, JsonView};
use crate::text::{bool_text, bool_word, contains_text, decimal, decimal_text};
use vstd::prelude::*;

verus! {

broadcast use vstd::string::group_string_axioms;

/// The ways in which an operation fails. `T` is the type of its texts and `J`
/// that of its documents.
#[derive(Debug, PartialEq)]
pub enum ErrorOf<T, J> {
    /// The environment names no home directory.
    NoHome,
    /// The environment names no task.
    NoSession,
    /// The list of allowed hosts is empty.
    NoHosts,
    /// The download directory could not be made.
    DownloadDir(T),
    /// The screenshot directory could not be made.
    ScreenshotDir(T),
    /// The text is no URL.
    InvalidUrl(T),
    /// The URL is neither HTTP nor HTTPS.
    NotHttp,
    /// The URL has no host.
    NoHost,
    /// The host is none of those allowed.
    HostNotAllowed { host: T, configured: T },
    /// Not exactly one of selector and text was given.
    Locator,
    /// The text is no tab id.
    TabId(T),
    /// Only one of two coordinates was given.
    HalfPoint,
    /// The parameters of a request are not an object.
    ParamsNotObject,
    /// A request is longer than a frame may be.
    RequestTooLarge,
    /// A response is longer than a frame may be.
    ResponseTooLarge(u64),
    /// The backend answered a request with an error.
    Refused { method: T, error: J },
    /// The socket directory could not be read.
    Sockets(T),
    /// No socket belongs to the browser of the task.
    NoBrowser { session: T, directory: T, probes: T },
    /// A new tab came without an id.
    NoTabId,
    /// A script ended in an exception.
    Script(J),
    /// The page stayed unready.
    NotReady(u64),
    /// The element is missing or cannot be clicked.
    NotClickable(J),
    /// A point has no x coordinate.
    NoX(J),
    /// A point has no y coordinate.
    NoY(J),
    /// Nothing could be typed.
    NotTyped { selector: T, reply: J },
    /// The select element is missing.
    NoSelect(J),
    /// The option could not be chosen.
    NotSelected(J),
    /// The checkable element is missing.
    NotCheckable(J),
    /// The element did not take the requested state.
    NotChecked(J),
    /// The page reported no viewport.
    NoViewport,
    /// The element did not appear.
    NotFound(u64),
    /// A screenshot came without data.
    NoImage,
    /// The data of a screenshot is not base64.
    BadImage,
    /// A file could not be written.
    Write(T),
    /// A paused request came without parameters.
    PausedNoParams(J),
    /// A paused request came without an id.
    PausedNoId(J),
    /// A paused request came without a URL.
    PausedNoUrl(J),
    /// A download comes from a URL that is not allowed.
    SourceNotAllowed(T),
    /// No download was completed.
    NoDownload { directory: T, timeout_ms: u64, authorized: bool, filename: Option<T> },
    /// Assets are to be bundled, of no inventory.
    NoInventory,
    /// It is not known what is to be done with the assets.
    AssetsAction,
    /// Something outside failed, in its own words.
    Outside(T),
    /// An answer came that does not fit the action before it.
    OutOfStep,
}

/// An error as programs see it.
pub type ControlError = ErrorOf<String, Json>;

/// What an error says.
pub type ErrorView = ErrorOf<Seq<char>, JsonView>;

impl View for ErrorOf<String, Json> {
    type V = ErrorOf<Seq<char>, JsonView>;

    open spec fn view(&self) -> ErrorOf<Seq<char>, JsonView> {
        match *self {
            ErrorOf::NoHome => ErrorOf::NoHome,
            ErrorOf::NoSession => ErrorOf::NoSession,
            ErrorOf::NoHosts => ErrorOf::NoHosts,
            ErrorOf::DownloadDir(t) => ErrorOf::DownloadDir(t@),
            ErrorOf::ScreenshotDir(t) => ErrorOf::ScreenshotDir(t@),
            ErrorOf::InvalidUrl(t) => ErrorOf::InvalidUrl(t@),
            ErrorOf::NotHttp => ErrorOf::NotHttp,
            ErrorOf::NoHost => ErrorOf::NoHost,
            ErrorOf::HostNotAllowed { host, configured } => ErrorOf::HostNotAllowed {
                host: host@,
                configured: configured@,
            },
            ErrorOf::Locator => ErrorOf::Locator,
            ErrorOf::TabId(t) => ErrorOf::TabId(t@),
            ErrorOf::HalfPoint => ErrorOf::HalfPoint,
            ErrorOf::ParamsNotObject => ErrorOf::ParamsNotObject,
            ErrorOf::RequestTooLarge => ErrorOf::RequestTooLarge,
            ErrorOf::ResponseTooLarge(n) => ErrorOf::ResponseTooLarge(n),
            ErrorOf::Refused { method, error } => ErrorOf::Refused {
                method: method@,
                error: error@,
            },
            ErrorOf::Sockets(t) => ErrorOf::Sockets(t@),
            ErrorOf::NoBrowser { session, directory, probes } => ErrorOf::NoBrowser {
                session: session@,
                directory: directory@,
                probes: probes@,
            },
            ErrorOf::NoTabId => ErrorOf::NoTabId,
            ErrorOf::Script(j) => ErrorOf::Script(j@),
            ErrorOf::NotReady(n) => ErrorOf::NotReady(n),
            ErrorOf::NotClickable(j) => ErrorOf::NotClickable(j@),
            ErrorOf::NoX(j) => ErrorOf::NoX(j@),
            ErrorOf::NoY(j) => ErrorOf::NoY(j@),
            ErrorOf::NotTyped { selector, reply } => ErrorOf::NotTyped {
                selector: selector@,
                reply: reply@,
            },
            ErrorOf::NoSelect(j) => ErrorOf::NoSelect(j@),
            ErrorOf::NotSelected(j) => ErrorOf::NotSelected(j@),
            ErrorOf::NotCheckable(j) => ErrorOf::NotCheckable(j@),
            ErrorOf::NotChecked(j) => ErrorOf::NotChecked(j@),
            ErrorOf::NoViewport => ErrorOf::NoViewport,
            ErrorOf::NotFound(n) => ErrorOf::NotFound(n),
            ErrorOf::NoImage => ErrorOf::NoImage,
            ErrorOf::BadImage => ErrorOf::BadImage,
            ErrorOf::Write(t) => ErrorOf::Write(t@),
            ErrorOf::PausedNoParams(j) => ErrorOf::PausedNoParams(j@),
            ErrorOf::PausedNoId(j) => ErrorOf::PausedNoId(j@),
            ErrorOf::PausedNoUrl(j) => ErrorOf::PausedNoUrl(j@),
            ErrorOf::SourceNotAllowed(t) => ErrorOf::SourceNotAllowed(t@),
            ErrorOf::NoDownload { directory, timeout_ms, authorized, filename } => {
                ErrorOf::NoDownload {
                    directory: directory@,
                    timeout_ms,
                    authorized,
                    filename: crate::text::optional_text(filename),
                }
            },
            ErrorOf::NoInventory => ErrorOf::NoInventory,
            ErrorOf::AssetsAction => ErrorOf::AssetsAction,
            ErrorOf::Outside(t) => ErrorOf::Outside(t@),
            ErrorOf::OutOfStep => ErrorOf::OutOfStep,
        }
    }
}

/// The words that say what went wrong.
pub open spec fn message(e: ErrorView) -> Seq<char> {
    match e {
        ErrorOf::NoHome => "HOME is not set"@,
        ErrorOf::NoSession =>
            "missing Codex task id; pass CODEX_THREAD_ID through the MCP environment or set RUST_BROWSER_SESSION_ID"@,
        ErrorOf::NoHosts => "RUST_BROWSER_ALLOWED_HOSTS cannot be empty"@,
        ErrorOf::DownloadDir(t) => "create download directory "@ + t,
        ErrorOf::ScreenshotDir(t) => "create screenshot directory "@ + t,
        ErrorOf::InvalidUrl(t) => "invalid URL: "@ + t,
        ErrorOf::NotHttp => "only HTTP(S) navigation is allowed"@,
        ErrorOf::NoHost => "URL has no host"@,
        ErrorOf::HostNotAllowed { host, configured } => "host "@ + host
            + " is not allowed; configured hosts: "@ + configured,
        ErrorOf::Locator => "supply exactly one non-empty locator: selector or text"@,
        ErrorOf::TabId(t) => "tab id must be a positive integer: "@ + t,
        ErrorOf::HalfPoint => "supply both x and y, or neither"@,
        ErrorOf::ParamsNotObject => "browser backend request params must be an object"@,
        ErrorOf::RequestTooLarge => "browser backend request frame is too large"@,
        ErrorOf::ResponseTooLarge(n) => "browser backend response frame is too large: "@ + decimal(
            n as nat,
        ) + " bytes"@,
        ErrorOf::Refused { method, error } => "browser backend "@ + method + " failed: "@ + compact(
            error,
        ),
        ErrorOf::Sockets(t) => "read "@ + t,
        ErrorOf::NoBrowser { session, directory, probes } =>
            "no Codex in-app browser socket matched task "@ + session + " in "@ + directory
            + "; open the side-pane Browser for this "@ + "task and retry. probes: "@ + probes,
        ErrorOf::NoTabId => "createTab returned no tab id"@,
        ErrorOf::Script(j) => "JavaScript evaluation failed: "@ + compact(j),
        ErrorOf::NotReady(n) => "page did not reach readyState=complete within "@ + decimal(
            n as nat,
        ) + " ms"@,
        ErrorOf::NotClickable(j) => "element not found or not clickable: "@ + compact(j),
        ErrorOf::NoX(j) => "point has no numeric x coordinate: "@ + compact(j),
        ErrorOf::NoY(j) => "point has no numeric y coordinate: "@ + compact(j),
        ErrorOf::NotTyped { selector, reply } => "could not type into "@ + selector + ": "@
            + compact(reply),
        ErrorOf::NoSelect(j) => "select element not found: "@ + compact(j),
        ErrorOf::NotSelected(j) => "could not select option: "@ + compact(j),
        ErrorOf::NotCheckable(j) => "checkable element not found: "@ + compact(j),
        ErrorOf::NotChecked(j) => "checkable element did not reach requested state: "@ + compact(j),
        ErrorOf::NoViewport => "Page.getLayoutMetrics returned no cssVisualViewport"@,
        ErrorOf::NotFound(n) => "timed out after "@ + decimal(n as nat)
            + " ms waiting for element"@,
        ErrorOf::NoImage => "CDP screenshot returned no data"@,
        ErrorOf::BadImage => "decode screenshot"@,
        ErrorOf::Write(t) => "write "@ + t,
        ErrorOf::PausedNoParams(j) => "Fetch.requestPaused event had no params: "@ + compact(j),
        ErrorOf::PausedNoId(j) => "Fetch.requestPaused had no requestId: "@ + compact(j),
        ErrorOf::PausedNoUrl(j) => "Fetch.requestPaused had no request URL: "@ + compact(j),
        ErrorOf::SourceNotAllowed(t) => "download source URL is not allowed: "@ + t,
        ErrorOf::NoDownload { directory, timeout_ms, authorized, filename } =>
            "no completed new download appeared in "@ + directory + " within "@ + decimal(
            timeout_ms as nat,
        ) + " ms; source URL authorized: "@ + bool_word(authorized) + "; backend filename: "@ + (
        match filename {
            Some(f) => f,
            None => "none"@,
        }),
        ErrorOf::NoInventory => "page_assets bundle requires inventory_id"@,
        ErrorOf::AssetsAction => "page_assets action must be list or bundle"@,
        ErrorOf::Outside(t) => t,
        ErrorOf::OutOfStep => "the answer does not fit the action before it"@,
    }
}

/// The view of a document or an error.
pub open spec fn json_result(r: Result<Json, ControlError>) -> Result<JsonView, ErrorView> {
    match r {
        Ok(j) => Ok(j@),
        Err(e) => Err(e@),
    }
}

/// `a`, `b` and `c` in one text.
pub fn phrase(a: &str, b: &str, c: &str) -> (text: String)
    ensures
        text@ == a@ + b@ + c@,
{
    let mut text = a.to_owned();
    text.append(b);
    text.append(c);
    text
}

/// `a` and `b` in one text.
pub fn pair(a: &str, b: &str) -> (text: String)
    ensures
        text@ == a@ + b@,
{
    let mut text = a.to_owned();
    text.append(b);
    text
}

impl ErrorOf<String, Json> {
    /// The words that say what went wrong.
    pub fn message(&self) -> (text: String)
        ensures
            text@ == message(self@),
    {
        match self {
            ErrorOf::NoHome => "HOME is not set".to_owned(),
            ErrorOf::NoSession =>
                "missing Codex task id; pass CODEX_THREAD_ID through the MCP environment or set RUST_BROWSER_SESSION_ID".to_owned(),
            ErrorOf::NoHosts => "RUST_BROWSER_ALLOWED_HOSTS cannot be empty".to_owned(),
            ErrorOf::DownloadDir(t) => pair("create download directory ", t),
            ErrorOf::ScreenshotDir(t) => pair("create screenshot directory ", t),
            ErrorOf::InvalidUrl(t) => pair("invalid URL: ", t),
            ErrorOf::NotHttp => "only HTTP(S) navigation is allowed".to_owned(),
            ErrorOf::NoHost => "URL has no host".to_owned(),
            ErrorOf::HostNotAllowed { host, configured } => {
                let mut text = phrase("host ", host, " is not allowed; configured hosts: ");
                text.append(configured);
                text
            },
            ErrorOf::Locator =>
                "supply exactly one non-empty locator: selector or text".to_owned(),
            ErrorOf::TabId(t) => pair("tab id must be a positive integer: ", t),
            ErrorOf::HalfPoint => "supply both x and y, or neither".to_owned(),
            ErrorOf::ParamsNotObject =>
                "browser backend request params must be an object".to_owned(),
            ErrorOf::RequestTooLarge => "browser backend request frame is too large".to_owned(),
            ErrorOf::ResponseTooLarge(n) => phrase(
                "browser backend response frame is too large: ",
                &decimal_text(*n as u128),
                " bytes",
            ),
            ErrorOf::Refused { method, error } => {
                let mut text = phrase("browser backend ", method, " failed: ");
                text.append(&json_text(error));
                text
            },
            ErrorOf::Sockets(t) => pair("read ", t),
            ErrorOf::NoBrowser { session, directory, probes } => {
                let mut text = phrase(
                    "no Codex in-app browser socket matched task ",
                    session,
                    " in ",
                );
                text.append(directory);
                text.append("; open the side-pane Browser for this ");
                text.append("task and retry. probes: ");
                text.append(probes);
                text
            },
            ErrorOf::NoTabId => "createTab returned no tab id".to_owned(),
            ErrorOf::Script(j) => pair("JavaScript evaluation failed: ", &json_text(j)),
            ErrorOf::NotReady(n) => phrase(
                "page did not reach readyState=complete within ",
                &decimal_text(*n as u128),
                " ms",
            ),
            ErrorOf::NotClickable(j) => pair("element not found or not clickable: ", &json_text(j)),
            ErrorOf::NoX(j) => pair("point has no numeric x coordinate: ", &json_text(j)),
            ErrorOf::NoY(j) => pair("point has no numeric y coordinate: ", &json_text(j)),
            ErrorOf::NotTyped { selector, reply } => {
                let mut text = phrase("could not type into ", selector, ": ");
                text.append(&json_text(reply));
                text
            },
            ErrorOf::NoSelect(j) => pair("select element not found: ", &json_text(j)),
            ErrorOf::NotSelected(j) => pair("could not select option: ", &json_text(j)),
            ErrorOf::NotCheckable(j) => pair("checkable element not found: ", &json_text(j)),
            ErrorOf::NotChecked(j) => pair(
                "checkable element did not reach requested state: ",
                &json_text(j),
            ),
            ErrorOf::NoViewport =>
                "Page.getLayoutMetrics returned no cssVisualViewport".to_owned(),
            ErrorOf::NotFound(n) => phrase(
                "timed out after ",
                &decimal_text(*n as u128),
                " ms waiting for element",
            ),
            ErrorOf::NoImage => "CDP screenshot returned no data".to_owned(),
            ErrorOf::BadImage => "decode screenshot".to_owned(),
            ErrorOf::Write(t) => pair("write ", t),
            ErrorOf::PausedNoParams(j) => pair(
                "Fetch.requestPaused event had no params: ",
                &json_text(j),
            ),
            ErrorOf::PausedNoId(j) => pair("Fetch.requestPaused had no requestId: ", &json_text(j)),
            ErrorOf::PausedNoUrl(j) => pair(
                "Fetch.requestPaused had no request URL: ",
                &json_text(j),
            ),
            ErrorOf::SourceNotAllowed(t) => pair("download source URL is not allowed: ", t),
            ErrorOf::NoDownload { directory, timeout_ms, authorized, filename } => {
                let mut text = phrase(
                    "no completed new download appeared in ",
                    directory,
                    " within ",
                );
                text.append(&decimal_text(*timeout_ms as u128));
                text.append(" ms; source URL authorized: ");
                text.append(bool_text(*authorized));
                text.append("; backend filename: ");
                match filename {
                    Some(f) => text.append(f),
                    None => text.append("none"),
                }
                text
            },
            ErrorOf::NoInventory => "page_assets bundle requires inventory_id".to_owned(),
            ErrorOf::AssetsAction => "page_assets action must be list or bundle".to_owned(),
            ErrorOf::Outside(t) => t.clone(),
            ErrorOf::OutOfStep => "the answer does not fit the action before it".to_owned(),
        }
    }
}

/// What an error is about, as far as it has a subject: each of these stands in
/// its message.
pub open spec fn is_named(e: ErrorView, text: Seq<char>) -> bool {
    match e {
        ErrorOf::DownloadDir(t) => contains_text(text, t),
        ErrorOf::ScreenshotDir(t) => contains_text(text, t),
        ErrorOf::InvalidUrl(t) => contains_text(text, t),
        ErrorOf::HostNotAllowed { host, configured } => contains_text(text, "host "@ + host)
            && contains_text(
            text,
            " is not allowed; configured hosts: "@ + configured,
        ),
        ErrorOf::TabId(t) => contains_text(text, t),
        ErrorOf::ResponseTooLarge(n) => contains_text(text, decimal(n as nat)),
        ErrorOf::Refused { method, error } => contains_text(text, "browser backend "@ + method)
            && contains_text(text, " failed: "@ + compact(error)),
        ErrorOf::Sockets(t) => contains_text(text, t),
        ErrorOf::NoBrowser { session, directory, probes } => contains_text(text, session)
            && contains_text(text, " in "@ + directory) && contains_text(text, probes),
        ErrorOf::Script(j) => contains_text(text, compact(j)),
        ErrorOf::NotReady(n) => contains_text(text, decimal(n as nat)),
        ErrorOf::NotClickable(j) => contains_text(text, compact(j)),
        ErrorOf::NoX(j) => contains_text(text, compact(j)),
        ErrorOf::NoY(j) => contains_text(text, compact(j)),
        ErrorOf::NotTyped { selector, reply } => contains_text(
            text,
            "could not type into "@ + selector,
        ) && contains_text(text, ": "@ + compact(reply)),
        ErrorOf::NoSelect(j) => contains_text(text, compact(j)),
        ErrorOf::NotSelected(j) => contains_text(text, compact(j)),
        ErrorOf::NotCheckable(j) => contains_text(text, compact(j)),
        ErrorOf::NotChecked(j) => contains_text(text, compact(j)),
        ErrorOf::NotFound(n) => contains_text(text, decimal(n as nat)),
        ErrorOf::Write(t) => contains_text(text, t),
        ErrorOf::PausedNoParams(j) => contains_text(text, compact(j)),
        ErrorOf::PausedNoId(j) => contains_text(text, compact(j)),
        ErrorOf::PausedNoUrl(j) => contains_text(text, compact(j)),
        ErrorOf::SourceNotAllowed(t) => contains_text(text, t),
        ErrorOf::NoDownload { directory, timeout_ms, authorized, filename } => {
            &&& contains_text(text, directory)
            &&& contains_text(text, " within "@ + decimal(timeout_ms as nat))
            &&& contains_text(
                text,
                " ms; source URL authorized: "@ + if authorized {
                    "true"@
                } else {
                    "false"@
                },
            )
            &&& contains_text(
                text,
                "; backend filename: "@ + match filename {
                    Some(name) => name,
                    None => "none"@,
                },
            )
        },
        ErrorOf::Outside(t) => text == t,
        _ => true,
    }
}

/// The message of an error names all that the error is about.
pub proof fn law_message_names_its_subject(e: ErrorView)
    ensures
        is_named(e, message(e)),
{
    broadcast use crate::text::group_contains;

}

} // verus!
