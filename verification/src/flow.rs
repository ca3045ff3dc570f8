//! How operations go: from where one stands, and what is told, to where it
//! stands then and what it asks for.
use crate::config::{dirs_made, validated, ConfigView};
use crate::error::{ErrorOf, ErrorView};
use crate::files::{completed, files_of, png_name, ListedView, Stamp};
use crate::json::{
    as_flag, as_text, as_unsigned, field, pretty, then_field, JsonView, NumberView,
};
use crate::path::{joined_path, lossy};
use crate::protocol::{CallOf, CommandOf, CommandView};
use crate::reply::{as_number, captured, evaluated, located, point_of, says};
use crate::report::{
    checked_text, click_text, cursor_text, download_text, launch_text, screenshot_text, scroll_text,
    select_text, status_text, type_text_done,
};
use crate::script::{
    checked_script, find_select_script, locate_script, one_locator, presence_script, select_script,
    snapshot_script, type_script, PAGE_IDENTITY, READY_STATE,
};
use crate::tabs::{chosen_tab, named_tab, tab_id_of, user_tab, Tab};
use crate::task::{
    ActionOf, ActionView, EventView, OutcomeOf, OutcomeView, Stage, TaskOf, TaskView,
};
use vstd::prelude::*;
use vstd::utf8::encode_utf8;

verus! {

broadcast use vstd::string::group_string_axioms;

/// How long a page may take until it is ready, in milliseconds.
pub const READY_MS: u64 = 20_000;

/// What an operation knows.
pub struct OperationView {
    pub task: TaskView,
    /// The tab that was asked for.
    pub requested: Option<Seq<char>>,
    pub stage: Stage,
    /// The socket and the turn of the connection.
    pub socket: Seq<u8>,
    pub turn: Seq<char>,
    /// The tab that is worked on.
    pub tab: u64,
    /// Where the cursor goes, and whether to click there.
    pub point: Option<(NumberView, NumberView)>,
    pub press: bool,
    /// What the browser or the page said of itself.
    pub found: JsonView,
    /// The files before the download.
    pub before: Map<Seq<u8>, Stamp>,
    /// Whether a source of the download was allowed.
    pub authorized: bool,
    /// The file that the backend reports.
    pub filename: Option<Seq<char>>,
    /// The response that is held up.
    pub held: Seq<char>,
    /// What comes of the operation once responses flow again.
    pub result: Option<Result<Seq<char>, ErrorView>>,
    /// The screenshot, its size and its place.
    pub image: Seq<u8>,
    pub size: usize,
    pub path: Seq<u8>,
}

/// An operation and what it asks for.
pub type Next = (OperationView, ActionView);

/// An operation at its start.
pub open spec fn begun(
    task: TaskView,
    requested: Option<Seq<char>>,
    stage: Stage,
) -> OperationView {
    OperationView {
        task,
        requested,
        stage,
        socket: Seq::empty(),
        turn: Seq::empty(),
        tab: 0,
        point: None,
        press: false,
        found: JsonView::Null,
        before: Map::empty(),
        authorized: false,
        filename: None,
        held: Seq::empty(),
        result: None,
        image: Seq::empty(),
        size: 0,
        path: Seq::empty(),
    }
}

/// An operation that starts by connecting.
pub open spec fn connecting(task: TaskView, requested: Option<Seq<char>>) -> Next {
    (begun(task, requested, Stage::Connecting), ActionOf::Connect)
}

/// An operation that starts by making directories.
pub open spec fn preparing(task: TaskView, requested: Option<Seq<char>>) -> Next {
    (begun(task, requested, Stage::Preparing), ActionOf::PrepareDirs)
}

/// Whether no other operation that acts on the page may run at the same time.
pub open spec fn is_exclusive(task: TaskView) -> bool {
    match task {
        TaskOf::MoveCursor { .. } => true,
        TaskOf::Click { .. } => true,
        TaskOf::TypeText { .. } => true,
        TaskOf::SelectOption { .. } => true,
        TaskOf::SetChecked { .. } => true,
        TaskOf::Scroll { .. } => true,
        TaskOf::Download { .. } => true,
        _ => false,
    }
}

/// The operation goes on with an action.
pub open spec fn onward(op: OperationView, stage: Stage, action: ActionView) -> Next {
    (OperationView { stage, ..op }, action)
}

/// The operation ends.
pub open spec fn ended(op: OperationView, r: Result<OutcomeView, ErrorView>) -> Next {
    onward(op, Stage::Ended, ActionOf::Finish(r))
}

/// The operation ends with a text.
pub open spec fn told(op: OperationView, text: Seq<char>) -> Next {
    ended(op, Ok(OutcomeOf::Text(text)))
}

/// The operation fails.
pub open spec fn failed(op: OperationView, e: ErrorView) -> Next {
    ended(op, Err(e))
}

/// What was told does not fit what was asked.
pub open spec fn astray(op: OperationView) -> Next {
    failed(op, ErrorOf::OutOfStep)
}

/// A command for the page of the operation.
pub open spec fn commanding(op: OperationView, stage: Stage, command: CommandView) -> Next {
    onward(op, stage, ActionOf::Send(CallOf::Cdp { tab: op.tab, command }))
}

/// A script for the page of the operation.
pub open spec fn asking(op: OperationView, stage: Stage, script: Seq<char>) -> Next {
    commanding(op, stage, CommandOf::Evaluate(script))
}

/// Looking for an element by exactly one of selector and text.
pub open spec fn locating(
    op: OperationView,
    selector: Option<Seq<char>>,
    text: Option<Seq<char>>,
) -> Next {
    if one_locator(selector, text) {
        asking(op, Stage::Locating, locate_script(selector, text))
    } else {
        failed(op, ErrorOf::Locator)
    }
}

/// Asking whether an element is there.
pub open spec fn watching(
    op: OperationView,
    selector: Option<Seq<char>>,
    text: Option<Seq<char>>,
) -> Next {
    if one_locator(selector, text) {
        asking(op, Stage::Waiting, presence_script(selector, text))
    } else {
        failed(op, ErrorOf::Locator)
    }
}

/// Moving the cursor to a point, to click there or not.
pub open spec fn pointing(op: OperationView, x: NumberView, y: NumberView, press: bool) -> Next {
    onward(
        OperationView { point: Some((x, y)), press, ..op },
        Stage::Moving,
        ActionOf::Send(CallOf::MoveMouse { tab: op.tab, x, y }),
    )
}

/// Moving the cursor to where a value points.
pub open spec fn pointing_at(op: OperationView, value: JsonView, press: bool) -> Next {
    match point_of(value) {
        Ok(p) => pointing(op, p.0, p.1, press),
        Err(e) => failed(op, e),
    }
}

/// Ending the pause of responses, and then the operation with a result.
pub open spec fn releasing(op: OperationView, result: Result<Seq<char>, ErrorView>) -> Next {
    commanding(
        OperationView { result: Some(result), ..op },
        Stage::Disabling,
        CommandOf::FetchDisable,
    )
}

/// The directories were made, or not, for a screenshot or a download.
pub open spec fn after_preparing(
    config: ConfigView,
    op: OperationView,
    download: bool,
    screenshot: bool,
) -> Next {
    match dirs_made(config, download, screenshot) {
        Err(e) => failed(op, e),
        Ok(_) => match op.task {
            TaskOf::Download { .. } => onward(op, Stage::Recording, ActionOf::ListDownloads),
            _ => onward(op, Stage::Connecting, ActionOf::Connect),
        },
    }
}

/// The files before the download were listed.
pub open spec fn after_recording(op: OperationView, r: Result<Seq<ListedView>, Seq<char>>) -> Next {
    match r {
        Ok(listing) => onward(
            OperationView { before: files_of(listing), ..op },
            Stage::Connecting,
            ActionOf::Connect,
        ),
        Err(words) => failed(op, ErrorOf::Outside(words)),
    }
}

/// The connection was made, or not.
pub open spec fn after_connecting(
    op: OperationView,
    r: Result<(Seq<u8>, Seq<char>), ErrorView>,
) -> Next {
    match r {
        Err(e) => failed(op, e),
        Ok(c) => {
            let op = OperationView { socket: c.0, turn: c.1, ..op };
            match op.task {
                TaskOf::Status => onward(op, Stage::Informing, ActionOf::Send(CallOf::GetInfo)),
                TaskOf::ListTabs => onward(op, Stage::Counting, ActionOf::ListTabs),
                TaskOf::OpenTab { .. } => onward(
                    op,
                    Stage::Opening,
                    ActionOf::Send(CallOf::CreateTab),
                ),
                _ => onward(op, Stage::Resolving, ActionOf::ListTabs),
            }
        },
    }
}

/// The browser described itself.
pub open spec fn after_informing(op: OperationView, r: Result<JsonView, ErrorView>) -> Next {
    match r {
        Ok(info) => onward(
            OperationView { found: info, ..op },
            Stage::Counting,
            ActionOf::ListTabs,
        ),
        Err(e) => failed(op, e),
    }
}

/// The tabs were listed for the report.
pub open spec fn after_counting(
    config: ConfigView,
    op: OperationView,
    r: Result<Seq<Tab>, ErrorView>,
) -> Next {
    match r {
        Err(e) => failed(op, e),
        Ok(tabs) => match op.task {
            TaskOf::Status => told(
                op,
                status_text(config, op.found, op.socket, op.turn, tabs.len()),
            ),
            _ => ended(op, Ok(OutcomeOf::Tabs(tabs))),
        },
    }
}

/// A new tab was made for a page.
pub open spec fn after_opening(op: OperationView, r: Result<JsonView, ErrorView>) -> Next {
    match r {
        Err(e) => failed(op, e),
        Ok(created) => match tab_id_of(created) {
            None => failed(op, ErrorOf::NoTabId),
            Some(id) => onward(
                OperationView { tab: id, ..op },
                Stage::OpenAttaching,
                ActionOf::Send(CallOf::Attach(id)),
            ),
        },
    }
}

/// The new tab was attached.
pub open spec fn after_open_attaching(op: OperationView, r: Result<JsonView, ErrorView>) -> Next {
    match r {
        Err(e) => failed(op, e),
        Ok(_) => match op.task {
            TaskOf::OpenTab { href } => commanding(
                op,
                Stage::Navigating,
                CommandOf::Navigate(href),
            ),
            _ => astray(op),
        },
    }
}

/// The tab that was asked for, if any was.
pub open spec fn wanted_tab(requested: Option<Seq<char>>) -> Result<Option<u64>, ErrorView> {
    match requested {
        None => Ok(None),
        Some(raw) => match named_tab(raw) {
            Ok(id) => Ok(Some(id)),
            Err(e) => Err(e),
        },
    }
}

/// Attaching a tab.
pub open spec fn attaching(op: OperationView, id: u64) -> Next {
    onward(
        OperationView { tab: id, ..op },
        Stage::Attaching,
        ActionOf::Send(CallOf::Attach(id)),
    )
}

/// The tabs were listed to choose one.
pub open spec fn after_resolving(
    preferred: Option<u64>,
    op: OperationView,
    r: Result<Seq<Tab>, ErrorView>,
) -> Next {
    match r {
        Err(e) => failed(op, e),
        Ok(tabs) => match wanted_tab(op.requested) {
            Err(e) => failed(op, e),
            Ok(requested) => match chosen_tab(tabs, requested, preferred) {
                Some(id) => attaching(op, id),
                None => onward(op, Stage::Borrowing, ActionOf::Send(CallOf::GetUserTabs)),
            },
        },
    }
}

/// The tabs of the user were listed, or could not be.
pub open spec fn after_borrowing(op: OperationView, r: Result<JsonView, ErrorView>) -> Next {
    let id = match r {
        Ok(accounts) => user_tab(accounts),
        Err(_) => None,
    };
    match id {
        Some(id) => onward(
            OperationView { tab: id, ..op },
            Stage::Claiming,
            ActionOf::Send(CallOf::ClaimUserTab(id)),
        ),
        None => onward(op, Stage::Creating, ActionOf::Send(CallOf::CreateTab)),
    }
}

/// A tab of the user was taken over.
pub open spec fn after_claiming(op: OperationView, r: Result<JsonView, ErrorView>) -> Next {
    match r {
        Ok(_) => attaching(op, op.tab),
        Err(e) => failed(op, e),
    }
}

/// A new tab was made for want of another.
pub open spec fn after_creating(op: OperationView, r: Result<JsonView, ErrorView>) -> Next {
    match r {
        Err(e) => failed(op, e),
        Ok(created) => match tab_id_of(created) {
            None => failed(op, ErrorOf::NoTabId),
            Some(id) => attaching(op, id),
        },
    }
}

/// The work on the tab begins.
pub open spec fn resolved(config: ConfigView, op: OperationView) -> Next {
    match op.task {
        TaskOf::Launch { url: Some(url) } => match validated(config.allowed_hosts, url) {
            Ok(parts) => commanding(op, Stage::Navigating, CommandOf::Navigate(parts.href)),
            Err(e) => failed(op, e),
        },
        TaskOf::Launch { url: None } => onward(op, Stage::Arranging, ActionOf::PrepareDirs),
        TaskOf::Navigate { href } => commanding(op, Stage::Navigating, CommandOf::Navigate(href)),
        TaskOf::Snapshot => asking(op, Stage::Reading, snapshot_script(op.tab)),
        TaskOf::MoveCursor { x, y } => pointing(op, x, y, false),
        TaskOf::Click { selector, text } => locating(op, selector, text),
        TaskOf::TypeText { selector, .. } => locating(op, Some(selector), None),
        TaskOf::SelectOption { selector, index, .. } => asking(
            op,
            Stage::Finding,
            find_select_script(selector, index as nat),
        ),
        TaskOf::SetChecked { selector, .. } => asking(
            op,
            Stage::Checking,
            checked_script(selector),
        ),
        TaskOf::Scroll { selector: Some(selector), .. } => locating(op, Some(selector), None),
        TaskOf::Scroll { selector: None, point: Some(p), .. } => pointing(op, p.0, p.1, false),
        TaskOf::Scroll { selector: None, point: None, .. } => commanding(
            op,
            Stage::Measuring,
            CommandOf::LayoutMetrics,
        ),
        TaskOf::WaitFor { .. } => onward(op, Stage::WaitStarting, ActionOf::StartTimer),
        TaskOf::Screenshot { .. } => commanding(
            op,
            Stage::Capturing,
            CommandOf::CaptureScreenshot,
        ),
        TaskOf::Download { .. } => onward(op, Stage::Arranging, ActionOf::PrepareDirs),
        _ => astray(op),
    }
}

/// The chosen tab was attached.
pub open spec fn after_attaching(
    config: ConfigView,
    op: OperationView,
    r: Result<JsonView, ErrorView>,
) -> Next {
    match r {
        Ok(_) => resolved(config, op),
        Err(e) => failed(op, e),
    }
}

/// The page was opened.
pub open spec fn after_navigating(op: OperationView, r: Result<JsonView, ErrorView>) -> Next {
    match r {
        Ok(_) => onward(op, Stage::ReadyStarting, ActionOf::StartTimer),
        Err(e) => failed(op, e),
    }
}

/// Asking whether the page is ready.
pub open spec fn asking_ready(op: OperationView) -> Next {
    asking(op, Stage::ReadyAsking, READY_STATE@)
}

/// Whether a page says that it is ready.
pub open spec fn is_ready(r: Result<JsonView, ErrorView>) -> bool {
    evaluated(r) == Ok::<JsonView, ErrorView>(JsonView::Text("complete"@))
}

/// The page told whether it is ready.
pub open spec fn after_ready_asking(op: OperationView, r: Result<JsonView, ErrorView>) -> Next {
    if is_ready(r) {
        match op.task {
            TaskOf::Launch { .. } => onward(op, Stage::Arranging, ActionOf::PrepareDirs),
            _ => asking(op, Stage::Identifying, PAGE_IDENTITY@),
        }
    } else {
        onward(op, Stage::ReadyTiming, ActionOf::ReadTimer)
    }
}

/// The timer of the page was read.
pub open spec fn after_ready_timing(op: OperationView, elapsed: u64) -> Next {
    if elapsed >= READY_MS {
        failed(op, ErrorOf::NotReady(READY_MS))
    } else {
        onward(op, Stage::ReadyPausing, ActionOf::Pause(200))
    }
}

/// The browser was told where downloads go, or could not be.
pub open spec fn arranged(op: OperationView) -> Next {
    match op.task {
        TaskOf::Download { .. } => commanding(op, Stage::Enabling, CommandOf::FetchEnable),
        _ => asking(op, Stage::Identifying, PAGE_IDENTITY@),
    }
}

/// The directories were made, or not, for downloads to come.
pub open spec fn after_arranging(
    config: ConfigView,
    op: OperationView,
    download: bool,
    screenshot: bool,
) -> Next {
    match dirs_made(config, download, screenshot) {
        Ok(_) => commanding(
            op,
            Stage::Directing,
            CommandOf::DownloadBehavior(lossy(config.download_dir)),
        ),
        Err(_) => arranged(op),
    }
}

/// The page told its URL and title.
pub open spec fn after_identifying(
    config: ConfigView,
    op: OperationView,
    r: Result<JsonView, ErrorView>,
) -> Next {
    match evaluated(r) {
        Err(e) => failed(op, e),
        Ok(identity) => match op.task {
            TaskOf::Launch { .. } => told(op, launch_text(config, op.socket, op.tab, identity)),
            _ => told(op, pretty(identity)),
        },
    }
}

/// The page was described.
pub open spec fn after_reading(op: OperationView, r: Result<JsonView, ErrorView>) -> Next {
    match evaluated(r) {
        Ok(value) => told(op, pretty(value)),
        Err(e) => failed(op, e),
    }
}

/// The element was looked for.
pub open spec fn after_locating(op: OperationView, r: Result<JsonView, ErrorView>) -> Next {
    match located(r) {
        Err(e) => failed(op, e),
        Ok(value) => pointing_at(
            OperationView { found: value, ..op },
            value,
            !(op.task is Scroll),
        ),
    }
}

/// The select element was looked for.
pub open spec fn after_finding(op: OperationView, r: Result<JsonView, ErrorView>) -> Next {
    match evaluated(r) {
        Err(e) => failed(op, e),
        Ok(value) => if says(value, "ok"@) {
            pointing_at(op, value, true)
        } else {
            failed(op, ErrorOf::NoSelect(value))
        },
    }
}

/// Whether a checkable element has a state.
pub open spec fn is_checked(value: JsonView, checked: bool) -> bool {
    as_flag(field(value, "checked"@)) == Some(checked)
}

/// The checkable element was looked at.
pub open spec fn after_checking(op: OperationView, r: Result<JsonView, ErrorView>) -> Next {
    match evaluated(r) {
        Err(e) => failed(op, e),
        Ok(value) => match op.task {
            TaskOf::SetChecked { checked, .. } => if says(value, "ok"@) {
                pointing_at(op, value, !is_checked(value, checked))
            } else {
                failed(op, ErrorOf::NotCheckable(value))
            },
            _ => astray(op),
        },
    }
}

/// The checkable element was looked at once more.
pub open spec fn after_rechecking(op: OperationView, r: Result<JsonView, ErrorView>) -> Next {
    match evaluated(r) {
        Err(e) => failed(op, e),
        Ok(value) => match op.task {
            TaskOf::SetChecked { selector, checked } => if is_checked(value, checked) {
                told(op, checked_text(checked, selector, op.tab))
            } else {
                failed(op, ErrorOf::NotChecked(value))
            },
            _ => astray(op),
        },
    }
}

/// A number of a viewport, or else the usual one.
pub open spec fn extent(viewport: JsonView, key: Seq<char>, usual: u64) -> NumberView {
    match as_number(field(viewport, key)) {
        Some(n) => n,
        None => NumberView::Unsigned(usual),
    }
}

/// The page told its viewport.
pub open spec fn after_measuring(op: OperationView, r: Result<JsonView, ErrorView>) -> Next {
    match r {
        Err(e) => failed(op, e),
        Ok(metrics) => match field(metrics, "cssVisualViewport"@) {
            None => failed(op, ErrorOf::NoViewport),
            Some(viewport) => onward(
                op,
                Stage::Halving,
                ActionOf::Halve(
                    extent(viewport, "clientWidth"@, 1280),
                    extent(viewport, "clientHeight"@, 720),
                ),
            ),
        },
    }
}

/// The backend moved the cursor.
pub open spec fn after_moving(op: OperationView, r: Result<JsonView, ErrorView>) -> Next {
    match r {
        Err(e) => failed(op, e),
        Ok(_) => match op.point {
            Some(p) => commanding(op, Stage::Hovering, CommandOf::MouseMoved { x: p.0, y: p.1 }),
            None => astray(op),
        },
    }
}

/// Looking at the checkable element once more.
pub open spec fn rechecking(op: OperationView) -> Next {
    match op.task {
        TaskOf::SetChecked { selector, .. } => asking(
            op,
            Stage::Rechecking,
            checked_script(selector),
        ),
        _ => astray(op),
    }
}

/// The cursor is where it was to go.
pub open spec fn hovering(op: OperationView, x: NumberView, y: NumberView) -> Next {
    match op.task {
        TaskOf::MoveCursor { .. } => told(op, cursor_text(x, y, op.tab)),
        TaskOf::SetChecked { .. } => rechecking(op),
        TaskOf::Scroll { back_x, back_y, .. } => commanding(
            op,
            Stage::Scrolling,
            CommandOf::ScrollGesture { x, y, dx: back_x, dy: back_y },
        ),
        _ => astray(op),
    }
}

/// The page was told of the cursor.
pub open spec fn after_hovering(op: OperationView, r: Result<JsonView, ErrorView>) -> Next {
    match r {
        Err(e) => failed(op, e),
        Ok(_) => match op.point {
            Some(p) => if op.press {
                commanding(op, Stage::Pressing, CommandOf::MousePressed { x: p.0, y: p.1 })
            } else {
                hovering(op, p.0, p.1)
            },
            None => astray(op),
        },
    }
}

/// The button was pressed.
pub open spec fn after_pressing(op: OperationView, r: Result<JsonView, ErrorView>) -> Next {
    match r {
        Err(e) => failed(op, e),
        Ok(_) => match op.point {
            Some(p) => commanding(
                op,
                Stage::Releasing,
                CommandOf::MouseReleased { x: p.0, y: p.1 },
            ),
            None => astray(op),
        },
    }
}

/// The button was released.
pub open spec fn after_releasing(op: OperationView, r: Result<JsonView, ErrorView>) -> Next {
    match r {
        Err(e) => failed(op, e),
        Ok(_) => match op.task {
            TaskOf::Click { .. } => onward(op, Stage::Settling, ActionOf::Pause(500)),
            TaskOf::TypeText { selector, text, clear, .. } => asking(
                op,
                Stage::Typing,
                type_script(selector, text, clear),
            ),
            TaskOf::SelectOption { selector, index, option } => asking(
                op,
                Stage::Selecting,
                select_script(selector, index as nat, option),
            ),
            TaskOf::SetChecked { .. } => onward(op, Stage::Settling, ActionOf::Pause(100)),
            TaskOf::Download { .. } => onward(op, Stage::WaitStarting, ActionOf::StartTimer),
            _ => astray(op),
        },
    }
}

/// The page was left alone after a click or a scroll.
pub open spec fn after_settling(op: OperationView) -> Next {
    match op.task {
        TaskOf::Click { .. } => told(op, click_text(op.found, op.tab)),
        TaskOf::SetChecked { .. } => rechecking(op),
        TaskOf::Scroll { dx, dy, .. } => match op.point {
            Some(p) => told(op, scroll_text(op.tab, p.0, p.1, dx, dy)),
            None => astray(op),
        },
        _ => astray(op),
    }
}

/// The page was scrolled.
pub open spec fn after_scrolling(op: OperationView, r: Result<JsonView, ErrorView>) -> Next {
    match r {
        Ok(_) => onward(op, Stage::Settling, ActionOf::Pause(250)),
        Err(e) => failed(op, e),
    }
}

/// The text was typed, and submitted where that was asked for.
pub open spec fn typed(op: OperationView) -> Next {
    match op.task {
        TaskOf::TypeText { selector, text, submit, .. } => told(
            op,
            type_text_done(selector, text.len(), submit),
        ),
        _ => astray(op),
    }
}

/// The text was entered.
pub open spec fn after_typing(op: OperationView, r: Result<JsonView, ErrorView>) -> Next {
    match evaluated(r) {
        Err(e) => failed(op, e),
        Ok(value) => match op.task {
            TaskOf::TypeText { selector, submit, .. } => if !says(value, "ok"@) {
                failed(op, ErrorOf::NotTyped { selector, reply: value })
            } else if submit {
                onward(op, Stage::Submitting, ActionOf::Pause(50))
            } else {
                typed(op)
            },
            _ => astray(op),
        },
    }
}

/// The enter key goes down or comes up.
pub open spec fn enter_key(kind: Seq<char>) -> CommandView {
    CommandOf::Key { kind, key: "Enter"@, code: "Enter"@, virtual_key: 13, modifiers: 0 }
}

/// The key went down.
pub open spec fn after_key_down(op: OperationView, r: Result<JsonView, ErrorView>) -> Next {
    match r {
        Ok(_) => commanding(op, Stage::KeyUp, enter_key("keyUp"@)),
        Err(e) => failed(op, e),
    }
}

/// The key came up.
pub open spec fn after_key_up(op: OperationView, r: Result<JsonView, ErrorView>) -> Next {
    match r {
        Ok(_) => typed(op),
        Err(e) => failed(op, e),
    }
}

/// The option was chosen.
pub open spec fn after_selecting(op: OperationView, r: Result<JsonView, ErrorView>) -> Next {
    match evaluated(r) {
        Err(e) => failed(op, e),
        Ok(value) => if says(value, "ok"@) {
            told(op, select_text(value, op.tab))
        } else {
            failed(op, ErrorOf::NotSelected(value))
        },
    }
}

/// Asking whether the element is there, or which files there are.
pub open spec fn waiting(op: OperationView) -> Next {
    match op.task {
        TaskOf::WaitFor { selector, text, .. } => watching(op, selector, text),
        TaskOf::Download { .. } => onward(op, Stage::Scanning, ActionOf::ListDownloads),
        _ => astray(op),
    }
}

/// The page told whether the element is there.
pub open spec fn after_waiting(op: OperationView, r: Result<JsonView, ErrorView>) -> Next {
    match evaluated(r) {
        Err(e) => failed(op, e),
        Ok(value) => if says(value, "found"@) {
            told(op, pretty(value))
        } else {
            onward(op, Stage::WaitTiming, ActionOf::ReadTimer)
        },
    }
}

/// The timer of the wait was read.
pub open spec fn after_wait_timing(config: ConfigView, op: OperationView, elapsed: u64) -> Next {
    match op.task {
        TaskOf::WaitFor { timeout_ms, .. } => if elapsed >= timeout_ms {
            failed(op, ErrorOf::NotFound(timeout_ms))
        } else {
            onward(op, Stage::WaitPausing, ActionOf::Pause(250))
        },
        TaskOf::Download { timeout_ms, .. } => if elapsed >= timeout_ms {
            releasing(
                op,
                Err(
                    ErrorOf::NoDownload {
                        directory: lossy(config.download_dir),
                        timeout_ms,
                        authorized: op.authorized,
                        filename: op.filename,
                    },
                ),
            )
        } else {
            onward(op, Stage::Listening, ActionOf::NextEvent(250))
        },
        _ => astray(op),
    }
}

/// Responses were made to pause.
pub open spec fn after_enabling(op: OperationView, r: Result<JsonView, ErrorView>) -> Next {
    match r {
        Err(e) => failed(op, e),
        Ok(_) => match op.task {
            TaskOf::Download { selector, text, .. } => locating(op, selector, text),
            _ => astray(op),
        },
    }
}

/// The files were listed.
pub open spec fn after_scanning(
    config: ConfigView,
    op: OperationView,
    r: Result<Seq<ListedView>, Seq<char>>,
) -> Next {
    match r {
        Err(words) => failed(op, ErrorOf::Outside(words)),
        Ok(listing) => match completed(files_of(listing), op.before) {
            Some(file) => releasing(
                op,
                Ok(
                    download_text(
                        lossy(joined_path(config.download_dir, file.0)),
                        file.1,
                        op.authorized,
                    ),
                ),
            ),
            None => onward(op, Stage::WaitTiming, ActionOf::ReadTimer),
        },
    }
}

/// A parameter of a message.
pub open spec fn param(message: JsonView, key: Seq<char>) -> Option<JsonView> {
    then_field(field(message, "params"@), key)
}

/// Whether a message says that a response for a tab was made to pause.
pub open spec fn is_pause(message: JsonView, tab: u64) -> bool {
    &&& as_text(field(message, "method"@)) == Some("onCDPEvent"@)
    &&& as_text(param(message, "method"@)) == Some("Fetch.requestPaused"@)
    &&& as_unsigned(then_field(param(message, "source"@), "tabId"@)) == Some(tab)
}

/// The id and the URL of the request whose response was made to pause.
pub open spec fn paused_request(message: JsonView) -> Result<(Seq<char>, Seq<char>), ErrorView> {
    match param(message, "params"@) {
        None => Err(ErrorOf::PausedNoParams(message)),
        Some(paused) => match as_text(field(paused, "requestId"@)) {
            None => Err(ErrorOf::PausedNoId(message)),
            Some(id) => match as_text(then_field(field(paused, "request"@), "url"@)) {
                None => Err(ErrorOf::PausedNoUrl(message)),
                Some(url) => Ok((id, url)),
            },
        },
    }
}

/// A response was made to pause: it goes on only where its source is allowed.
pub open spec fn holding(config: ConfigView, op: OperationView, message: JsonView) -> Next {
    match paused_request(message) {
        Err(e) => failed(op, e),
        Ok(request) => match validated(config.allowed_hosts, request.1) {
            Err(_) => failed(op, ErrorOf::SourceNotAllowed(request.1)),
            Ok(_) => onward(
                OperationView { held: request.0, ..op },
                Stage::Allowing,
                ActionOf::Send(CallOf::AllowDownload { tab: op.tab, url: request.1 }),
            ),
        },
    }
}

/// The backend reports on a download: the name is kept, and whether a download
/// is complete is then read off the directory.
pub open spec fn reported(op: OperationView, message: JsonView) -> Next {
    let filename = match as_text(param(message, "filename"@)) {
        Some(name) => Some(name),
        None => op.filename,
    };
    waiting(OperationView { filename, ..op })
}

/// A message came, or none did.
pub open spec fn after_listening(
    config: ConfigView,
    op: OperationView,
    r: Result<Option<JsonView>, ErrorView>,
) -> Next {
    match r {
        Err(e) => failed(op, e),
        Ok(None) => waiting(op),
        Ok(Some(message)) => if is_pause(message, op.tab) {
            holding(config, op, message)
        } else if as_text(field(message, "method"@)) == Some("onDownloadChange"@) {
            reported(op, message)
        } else {
            waiting(op)
        },
    }
}

/// The download was allowed.
pub open spec fn after_allowing(op: OperationView, r: Result<JsonView, ErrorView>) -> Next {
    match r {
        Ok(_) => commanding(op, Stage::Continuing, CommandOf::ContinueResponse(op.held)),
        Err(e) => failed(op, e),
    }
}

/// The response was let through.
pub open spec fn after_continuing(op: OperationView, r: Result<JsonView, ErrorView>) -> Next {
    match r {
        Ok(_) => waiting(OperationView { authorized: true, ..op }),
        Err(e) => failed(op, e),
    }
}

/// Responses are no longer made to pause.
pub open spec fn after_disabling(op: OperationView) -> Next {
    match op.result {
        Some(Ok(text)) => told(OperationView { result: None, ..op }, text),
        Some(Err(e)) => failed(OperationView { result: None, ..op }, e),
        None => astray(op),
    }
}

/// The screenshot was taken.
pub open spec fn after_capturing(op: OperationView, r: Result<JsonView, ErrorView>) -> Next {
    match r {
        Err(e) => failed(op, e),
        Ok(answer) => match captured(answer) {
            Err(e) => failed(op, e),
            Ok(image) => onward(
                OperationView { image, size: image.len() as usize, ..op },
                Stage::Dating,
                ActionOf::ReadClock,
            ),
        },
    }
}

/// The clock was read.
pub open spec fn after_dating(config: ConfigView, op: OperationView, now_ms: u128) -> Next {
    match op.task {
        TaskOf::Screenshot { filename } => {
            let path = joined_path(
                config.screenshot_dir,
                encode_utf8(png_name(filename, now_ms as nat)),
            );
            onward(
                OperationView { path, image: Seq::empty(), ..op },
                Stage::Saving,
                ActionOf::Save { path, image: op.image },
            )
        },
        _ => astray(op),
    }
}

/// The screenshot was written, or not.
pub open spec fn after_saving(op: OperationView, done: bool) -> Next {
    if done {
        told(op, screenshot_text(op.path, op.size as nat))
    } else {
        failed(op, ErrorOf::Write(lossy(op.path)))
    }
}

/// How an operation goes on.
pub open spec fn stepped(
    config: ConfigView,
    preferred: Option<u64>,
    op: OperationView,
    event: EventView,
) -> Next {
    match (op.stage, event) {
        (Stage::Preparing, EventView::Prepared { download, screenshot }) => after_preparing(
            config,
            op,
            download,
            screenshot,
        ),
        (Stage::Recording, EventView::Downloads(r)) => after_recording(op, r),
        (Stage::Connecting, EventView::Connected(r)) => after_connecting(op, r),
        (Stage::Informing, EventView::Reply(r)) => after_informing(op, r),
        (Stage::Counting, EventView::Tabs(r)) => after_counting(config, op, r),
        (Stage::Opening, EventView::Reply(r)) => after_opening(op, r),
        (Stage::OpenAttaching, EventView::Reply(r)) => after_open_attaching(op, r),
        (Stage::Resolving, EventView::Tabs(r)) => after_resolving(preferred, op, r),
        (Stage::Borrowing, EventView::Reply(r)) => after_borrowing(op, r),
        (Stage::Claiming, EventView::Reply(r)) => after_claiming(op, r),
        (Stage::Creating, EventView::Reply(r)) => after_creating(op, r),
        (Stage::Attaching, EventView::Reply(r)) => after_attaching(config, op, r),
        (Stage::Navigating, EventView::Reply(r)) => after_navigating(op, r),
        (Stage::ReadyStarting, EventView::Started) => asking_ready(op),
        (Stage::ReadyAsking, EventView::Reply(r)) => after_ready_asking(op, r),
        (Stage::ReadyTiming, EventView::Elapsed(ms)) => after_ready_timing(op, ms),
        (Stage::ReadyPausing, EventView::Paused) => asking_ready(op),
        (Stage::Arranging, EventView::Prepared { download, screenshot }) => after_arranging(
            config,
            op,
            download,
            screenshot,
        ),
        (Stage::Directing, EventView::Reply(_)) => arranged(op),
        (Stage::Identifying, EventView::Reply(r)) => after_identifying(config, op, r),
        (Stage::Reading, EventView::Reply(r)) => after_reading(op, r),
        (Stage::Locating, EventView::Reply(r)) => after_locating(op, r),
        (Stage::Finding, EventView::Reply(r)) => after_finding(op, r),
        (Stage::Checking, EventView::Reply(r)) => after_checking(op, r),
        (Stage::Rechecking, EventView::Reply(r)) => after_rechecking(op, r),
        (Stage::Measuring, EventView::Reply(r)) => after_measuring(op, r),
        (Stage::Halving, EventView::Halved(x, y)) => pointing(op, x, y, false),
        (Stage::Moving, EventView::Reply(r)) => after_moving(op, r),
        (Stage::Hovering, EventView::Reply(r)) => after_hovering(op, r),
        (Stage::Pressing, EventView::Reply(r)) => after_pressing(op, r),
        (Stage::Releasing, EventView::Reply(r)) => after_releasing(op, r),
        (Stage::Settling, EventView::Paused) => after_settling(op),
        (Stage::Typing, EventView::Reply(r)) => after_typing(op, r),
        (Stage::Submitting, EventView::Paused) => commanding(
            op,
            Stage::KeyDown,
            enter_key("rawKeyDown"@),
        ),
        (Stage::KeyDown, EventView::Reply(r)) => after_key_down(op, r),
        (Stage::KeyUp, EventView::Reply(r)) => after_key_up(op, r),
        (Stage::Selecting, EventView::Reply(r)) => after_selecting(op, r),
        (Stage::Scrolling, EventView::Reply(r)) => after_scrolling(op, r),
        (Stage::WaitStarting, EventView::Started) => waiting(op),
        (Stage::Waiting, EventView::Reply(r)) => after_waiting(op, r),
        (Stage::WaitTiming, EventView::Elapsed(ms)) => after_wait_timing(config, op, ms),
        (Stage::WaitPausing, EventView::Paused) => waiting(op),
        (Stage::Enabling, EventView::Reply(r)) => after_enabling(op, r),
        (Stage::Scanning, EventView::Downloads(r)) => after_scanning(config, op, r),
        (Stage::Listening, EventView::Backend(r)) => after_listening(config, op, r),
        (Stage::Allowing, EventView::Reply(r)) => after_allowing(op, r),
        (Stage::Continuing, EventView::Reply(r)) => after_continuing(op, r),
        (Stage::Disabling, EventView::Reply(_)) => after_disabling(op),
        (Stage::Capturing, EventView::Reply(r)) => after_capturing(op, r),
        (Stage::Dating, EventView::Clock(now_ms)) => after_dating(config, op, now_ms),
        (Stage::Saving, EventView::Saved(done)) => after_saving(op, done),
        _ => astray(op),
    }
}

/// The tab that is preferred from then on: the one that was attached, or made
/// for a page.
pub open spec fn preference(
    preferred: Option<u64>,
    op: OperationView,
    event: EventView,
) -> Option<u64> {
    match (op.stage, event) {
        (Stage::Attaching, EventView::Reply(Ok(_))) => Some(op.tab),
        (Stage::Opening, EventView::Reply(Ok(created))) => match tab_id_of(created) {
            Some(id) => Some(id),
            None => preferred,
        },
        _ => preferred,
    }
}

} // verus!
