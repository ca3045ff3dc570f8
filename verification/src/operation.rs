//! An operation under way.
use crate::client::answer_view;
use crate::config::BrowserConfig;
use crate::error::{json_result, ControlError, ErrorOf, ErrorView};
use crate::files::{
    completed_download, directory_state, safe_png_filename, FileState, Listed,
};
use crate::flow::{
    after_allowing, after_arranging, after_attaching, after_borrowing, after_capturing,
    after_checking, after_claiming, after_connecting, after_continuing, after_counting,
    after_creating, after_dating, after_disabling, after_enabling, after_finding, after_hovering,
    after_identifying, after_informing, after_key_down, after_key_up, after_listening,
    after_locating, after_measuring, after_moving, after_navigating, after_open_attaching,
    after_opening, after_preparing, after_pressing, after_reading, after_ready_asking,
    after_ready_timing, after_rechecking, after_recording, after_releasing, after_resolving,
    after_saving, after_scanning, after_scrolling, after_selecting, after_settling,
    after_typing, after_wait_timing, after_waiting, arranged, asking, asking_ready, astray,
    attaching, begun, commanding, ended, enter_key, extent, failed, holding, hovering, is_checked,
    is_exclusive, is_pause, onward, param, paused_request, pointing, preference, rechecking,
    releasing, reported, resolved,
    stepped, told, typed, waiting, OperationView, READY_MS,
};
use crate::json::{as_text, field, json_pretty, number_view, optional_json, unsigned_of, Json};
use crate::path::{join_path, path_text};
use crate::protocol::{CallOf, Command, CommandOf};
use crate::reply::{
    evaluate, flag, image_from_value, locate, number_field, point_from_value, point_result,
};
use crate::report::{
    checked_report, click_report, cursor_report, download_report, launch_report, screenshot_report,
    scroll_report, select_report, status_report, type_report,
};
use crate::script::{
    checked_expression, find_select_expression, locate_expression, presence_expression,
    select_expression, snapshot_expression, text_result, type_expression, PAGE_IDENTITY,
    READY_STATE,
};
use crate::tabs::{choose_tab, choose_user_tab, parse_tab_id, value_tab_id, Tab};
use crate::task::{
    connection_result, listing_result, optional_point, outcome_result, tabs_result,
    Action, ActionOf, Event, Outcome, OutcomeOf, Stage, Task, TaskOf,
};
use crate::text::{borrowed, optional_str, optional_text, same_text};
use vstd::prelude::*;

verus! {

broadcast use vstd::string::group_string_axioms;

/// An operation: the task, and what became known in the course of it.
#[derive(Debug)]
pub struct Operation {
    task: Task,
    requested: Option<String>,
    stage: Stage,
    socket: Vec<u8>,
    turn: String,
    tab: u64,
    point: Option<(serde_json::Number, serde_json::Number)>,
    press: bool,
    found: Json,
    before: FileState,
    authorized: bool,
    filename: Option<String>,
    held: String,
    result: Option<Result<String, ControlError>>,
    image: Vec<u8>,
    size: usize,
    path: Vec<u8>,
}

/// The view of a result that may be there.
pub open spec fn optional_result(r: Option<Result<String, ControlError>>) -> Option<
    Result<Seq<char>, ErrorView>,
> {
    match r {
        Some(r) => Some(text_result(r)),
        None => None,
    }
}

impl View for Operation {
    type V = OperationView;

    closed spec fn view(&self) -> OperationView {
        OperationView {
            task: self.task@,
            requested: optional_text(self.requested),
            stage: self.stage,
            socket: self.socket@,
            turn: self.turn@,
            tab: self.tab,
            point: optional_point(self.point),
            press: self.press,
            found: self.found@,
            before: self.before@,
            authorized: self.authorized,
            filename: optional_text(self.filename),
            held: self.held@,
            result: optional_result(self.result),
            image: self.image@,
            size: self.size,
            path: self.path@,
        }
    }
}

/// The exec form of [`is_checked`].
fn has_state(value: &Json, checked: bool) -> (b: bool)
    ensures
        b == is_checked(value@, checked),
{
    match value.get("checked") {
        Some(state) => state.as_bool() == Some(checked),
        None => false,
    }
}

/// The exec form of [`extent`].
fn extent_of(viewport: &Json, key: &str, usual: u64) -> (n: serde_json::Number)
    ensures
        number_view(n) == extent(viewport@, key@, usual),
{
    match number_field(viewport, key) {
        Some(n) => n.clone(),
        None => unsigned_of(usual),
    }
}

/// The exec form of [`param`].
fn get_param<'a>(message: &'a Json, key: &str) -> (value: Option<&'a Json>)
    ensures
        optional_json(value) == param(message@, key@),
{
    match message.get("params") {
        Some(params) => params.get(key),
        None => None,
    }
}

/// The text that a parameter of a message is, if it is one.
fn text_param<'a>(message: &'a Json, key: &str) -> (text: Option<&'a str>)
    ensures
        optional_str(text) == as_text(param(message@, key@)),
{
    match get_param(message, key) {
        Some(value) => value.as_str(),
        None => None,
    }
}

/// Whether a message has this method.
fn tells_method(message: &Json, method: &str) -> (b: bool)
    ensures
        b == (as_text(field(message@, "method"@)) == Some(method@)),
{
    match message.get("method") {
        Some(value) => match value.as_str() {
            Some(name) => same_text(name, method),
            None => false,
        },
        None => false,
    }
}

/// The exec form of [`is_pause`].
fn tells_pause(message: &Json, tab: u64) -> (b: bool)
    ensures
        b == is_pause(message@, tab),
{
    if !tells_method(message, "onCDPEvent") {
        return false;
    }
    let paused = match text_param(message, "method") {
        Some(name) => same_text(name, "Fetch.requestPaused"),
        None => false,
    };
    if !paused {
        return false;
    }
    match get_param(message, "source") {
        Some(source) => match source.get("tabId") {
            Some(id) => id.as_u64() == Some(tab),
            None => false,
        },
        None => false,
    }
}

/// The view of two texts or an error.
pub open spec fn texts_result(r: Result<(String, String), ControlError>) -> Result<
    (Seq<char>, Seq<char>),
    ErrorView,
> {
    match r {
        Ok(p) => Ok((p.0@, p.1@)),
        Err(e) => Err(e@),
    }
}

/// The exec form of [`paused_request`].
fn read_pause(message: Json) -> (r: Result<(String, String), ControlError>)
    ensures
        texts_result(r) == paused_request(message@),
{
    let paused = match get_param(&message, "params") {
        Some(paused) => paused,
        None => return Err(ErrorOf::PausedNoParams(message)),
    };
    let id = match paused.get("requestId") {
        Some(id) => match id.as_str() {
            Some(id) => id.to_owned(),
            None => return Err(ErrorOf::PausedNoId(message)),
        },
        None => return Err(ErrorOf::PausedNoId(message)),
    };
    let url = match paused.get("request") {
        Some(request) => match request.get("url") {
            Some(url) => match url.as_str() {
                Some(url) => url.to_owned(),
                None => return Err(ErrorOf::PausedNoUrl(message)),
            },
            None => return Err(ErrorOf::PausedNoUrl(message)),
        },
        None => return Err(ErrorOf::PausedNoUrl(message)),
    };
    Ok((id, url))
}

impl Operation {
    /// The files before the download are in order.
    pub closed spec fn wf(&self) -> bool {
        self.before.wf()
    }

    /// An operation at its start.
    pub(crate) fn begin(task: Task, requested: Option<&str>, stage: Stage) -> (op: Operation)
        ensures
            op.wf(),
            op@ == begun(task@, optional_str(requested), stage),
    {
        let op = Operation {
            task,
            requested: match requested {
                Some(raw) => Some(raw.to_owned()),
                None => None,
            },
            stage,
            socket: Vec::new(),
            turn: String::new(),
            tab: 0,
            point: None,
            press: false,
            found: Json::Null,
            before: FileState::new(),
            authorized: false,
            filename: None,
            held: String::new(),
            result: None,
            image: Vec::new(),
            size: 0,
            path: Vec::new(),
        };
        assert(op@.socket =~= Seq::<u8>::empty());
        assert(op@.turn =~= Seq::<char>::empty());
        assert(op@.held =~= Seq::<char>::empty());
        assert(op@.image =~= Seq::<u8>::empty());
        assert(op@.path =~= Seq::<u8>::empty());
        op
    }

    /// Whether no other operation that acts on the page may run at the same
    /// time.
    pub fn exclusive(&self) -> (b: bool)
        ensures
            b == is_exclusive(self@.task),
    {
        match self.task {
            TaskOf::MoveCursor { .. } => true,
            TaskOf::Click { .. } => true,
            TaskOf::TypeText { .. } => true,
            TaskOf::SelectOption { .. } => true,
            TaskOf::SetChecked { .. } => true,
            TaskOf::Scroll { .. } => true,
            TaskOf::Download { .. } => true,
            _ => false,
        }
    }

    /// The tab that is preferred once this is told.
    pub(crate) fn preference(&self, preferred: Option<u64>, event: &Event) -> (tab: Option<u64>)
        ensures
            tab == preference(preferred, self@, event@),
    {
        match (self.stage, event) {
            (Stage::Attaching, Event::Reply(Ok(_))) => Some(self.tab),
            (Stage::Opening, Event::Reply(Ok(created))) => match value_tab_id(created) {
                Some(id) => Some(id),
                None => preferred,
            },
            _ => preferred,
        }
    }

    /// Goes on with an action.
    fn onward(&mut self, stage: Stage, next: Action) -> (action: Action)
        requires
            old(self).wf(),
        ensures
            final(self).wf(),
            (final(self)@, action@) == onward(old(self)@, stage, next@),
    {
        self.stage = stage;
        next
    }

    /// Ends.
    fn ended(&mut self, r: Result<Outcome, ControlError>) -> (action: Action)
        requires
            old(self).wf(),
        ensures
            final(self).wf(),
            (final(self)@, action@) == ended(old(self)@, outcome_result(r)),
    {
        self.onward(Stage::Ended, ActionOf::Finish(r))
    }

    /// Ends with a text.
    fn told(&mut self, text: String) -> (action: Action)
        requires
            old(self).wf(),
        ensures
            final(self).wf(),
            (final(self)@, action@) == told(old(self)@, text@),
    {
        self.ended(Ok(OutcomeOf::Text(text)))
    }

    /// Fails.
    fn failed(&mut self, e: ControlError) -> (action: Action)
        requires
            old(self).wf(),
        ensures
            final(self).wf(),
            (final(self)@, action@) == failed(old(self)@, e@),
    {
        self.ended(Err(e))
    }

    /// Fails over an event that does not fit.
    fn astray(&mut self) -> (action: Action)
        requires
            old(self).wf(),
        ensures
            final(self).wf(),
            (final(self)@, action@) == astray(old(self)@),
    {
        self.failed(ErrorOf::OutOfStep)
    }

    /// Sends a command to the page.
    fn commanding(&mut self, stage: Stage, command: Command) -> (action: Action)
        requires
            old(self).wf(),
        ensures
            final(self).wf(),
            (final(self)@, action@) == commanding(old(self)@, stage, command@),
    {
        let tab = self.tab;
        self.onward(stage, ActionOf::Send(CallOf::Cdp { tab, command }))
    }

    /// Sends a script to the page.
    fn asking(&mut self, stage: Stage, script: String) -> (action: Action)
        requires
            old(self).wf(),
        ensures
            final(self).wf(),
            (final(self)@, action@) == asking(old(self)@, stage, script@),
    {
        self.commanding(stage, CommandOf::Evaluate(script))
    }

    /// Sends the script that looks for an element, where there is one.
    fn seeking(&mut self, script: Result<String, ControlError>) -> (action: Action)
        requires
            old(self).wf(),
        ensures
            final(self).wf(),
            (final(self)@, action@) == (match text_result(script) {
                Ok(script) => asking(old(self)@, Stage::Locating, script),
                Err(e) => failed(old(self)@, e),
            }),
    {
        match script {
            Ok(script) => self.asking(Stage::Locating, script),
            Err(e) => self.failed(e),
        }
    }

    /// Moves the cursor.
    fn pointing(
        &mut self,
        x: serde_json::Number,
        y: serde_json::Number,
        press: bool,
    ) -> (action: Action)
        requires
            old(self).wf(),
        ensures
            final(self).wf(),
            (final(self)@, action@) == pointing(old(self)@, number_view(x), number_view(y), press),
    {
        self.point = Some((x.clone(), y.clone()));
        self.press = press;
        let tab = self.tab;
        self.onward(Stage::Moving, ActionOf::Send(CallOf::MoveMouse { tab, x, y }))
    }

    /// Moves the cursor, where there is a point.
    fn pointing_at(
        &mut self,
        p: Result<(serde_json::Number, serde_json::Number), ControlError>,
        press: bool,
    ) -> (action: Action)
        requires
            old(self).wf(),
        ensures
            final(self).wf(),
            (final(self)@, action@) == (match point_result(p) {
                Ok(p) => pointing(old(self)@, p.0, p.1, press),
                Err(e) => failed(old(self)@, e),
            }),
    {
        match p {
            Ok((x, y)) => self.pointing(x, y, press),
            Err(e) => self.failed(e),
        }
    }

    /// Ends the pause of responses, to end with a result.
    fn releasing(&mut self, result: Result<String, ControlError>) -> (action: Action)
        requires
            old(self).wf(),
        ensures
            final(self).wf(),
            (final(self)@, action@) == releasing(old(self)@, text_result(result)),
    {
        self.result = Some(result);
        self.commanding(Stage::Disabling, CommandOf::FetchDisable)
    }

    /// See [`after_preparing`].
    fn after_preparing(
        &mut self,
        config: &BrowserConfig,
        download: bool,
        screenshot: bool,
    ) -> (action: Action)
        requires
            old(self).wf(),
        ensures
            final(self).wf(),
            (final(self)@, action@) == after_preparing(config@, old(self)@, download, screenshot),
    {
        match config.ensure_dirs(download, screenshot) {
            Err(e) => self.failed(e),
            Ok(_) => match self.task {
                TaskOf::Download { .. } => self.onward(Stage::Recording, ActionOf::ListDownloads),
                _ => self.onward(Stage::Connecting, ActionOf::Connect),
            },
        }
    }

    /// See [`after_recording`].
    fn after_recording(&mut self, r: Result<Vec<Listed>, String>) -> (action: Action)
        requires
            old(self).wf(),
        ensures
            final(self).wf(),
            (final(self)@, action@) == after_recording(old(self)@, listing_result(r)),
    {
        match r {
            Ok(listing) => {
                self.before = directory_state(listing);
                self.onward(Stage::Connecting, ActionOf::Connect)
            },
            Err(words) => self.failed(ErrorOf::Outside(words)),
        }
    }

    /// See [`after_connecting`].
    fn after_connecting(&mut self, r: Result<(Vec<u8>, String), ControlError>) -> (action: Action)
        requires
            old(self).wf(),
        ensures
            final(self).wf(),
            (final(self)@, action@) == after_connecting(old(self)@, connection_result(r)),
    {
        let (socket, turn) = match r {
            Ok(c) => c,
            Err(e) => return self.failed(e),
        };
        self.socket = socket;
        self.turn = turn;
        match self.task {
            TaskOf::Status => self.onward(Stage::Informing, ActionOf::Send(CallOf::GetInfo)),
            TaskOf::ListTabs => self.onward(Stage::Counting, ActionOf::ListTabs),
            TaskOf::OpenTab { .. } => self.onward(
                Stage::Opening,
                ActionOf::Send(CallOf::CreateTab),
            ),
            _ => self.onward(Stage::Resolving, ActionOf::ListTabs),
        }
    }

    /// See [`after_informing`].
    fn after_informing(&mut self, reply: Result<Json, ControlError>) -> (action: Action)
        requires
            old(self).wf(),
        ensures
            final(self).wf(),
            (final(self)@, action@) == after_informing(old(self)@, json_result(reply)),
    {
        match reply {
            Ok(info) => {
                self.found = info;
                self.onward(Stage::Counting, ActionOf::ListTabs)
            },
            Err(e) => self.failed(e),
        }
    }

    /// See [`after_counting`].
    fn after_counting(
        &mut self,
        config: &BrowserConfig,
        r: Result<Vec<Tab>, ControlError>,
    ) -> (action: Action)
        requires
            old(self).wf(),
        ensures
            final(self).wf(),
            (final(self)@, action@) == after_counting(config@, old(self)@, tabs_result(r)),
    {
        let tabs = match r {
            Ok(tabs) => tabs,
            Err(e) => return self.failed(e),
        };
        match self.task {
            TaskOf::Status => {
                let text = status_report(
                    config,
                    &self.found,
                    &self.socket,
                    &self.turn,
                    tabs.len(),
                );
                self.told(text)
            },
            _ => self.ended(Ok(OutcomeOf::Tabs(tabs))),
        }
    }

    /// See [`after_opening`].
    fn after_opening(&mut self, reply: Result<Json, ControlError>) -> (action: Action)
        requires
            old(self).wf(),
        ensures
            final(self).wf(),
            (final(self)@, action@) == after_opening(old(self)@, json_result(reply)),
    {
        let created = match reply {
            Ok(created) => created,
            Err(e) => return self.failed(e),
        };
        match value_tab_id(&created) {
            None => self.failed(ErrorOf::NoTabId),
            Some(id) => {
                self.tab = id;
                self.onward(Stage::OpenAttaching, ActionOf::Send(CallOf::Attach(id)))
            },
        }
    }

    /// See [`after_open_attaching`].
    fn after_open_attaching(&mut self, reply: Result<Json, ControlError>) -> (action: Action)
        requires
            old(self).wf(),
        ensures
            final(self).wf(),
            (final(self)@, action@) == after_open_attaching(old(self)@, json_result(reply)),
    {
        if let Err(e) = reply {
            return self.failed(e);
        }
        match &self.task {
            TaskOf::OpenTab { href } => {
                let command = CommandOf::Navigate(href.clone());
                self.commanding(Stage::Navigating, command)
            },
            _ => self.astray(),
        }
    }

    /// Attaches a tab.
    fn attaching(&mut self, id: u64) -> (action: Action)
        requires
            old(self).wf(),
        ensures
            final(self).wf(),
            (final(self)@, action@) == attaching(old(self)@, id),
    {
        self.tab = id;
        self.onward(Stage::Attaching, ActionOf::Send(CallOf::Attach(id)))
    }

    /// See [`after_resolving`].
    fn after_resolving(
        &mut self,
        preferred: Option<u64>,
        r: Result<Vec<Tab>, ControlError>,
    ) -> (action: Action)
        requires
            old(self).wf(),
        ensures
            final(self).wf(),
            (final(self)@, action@) == after_resolving(preferred, old(self)@, tabs_result(r)),
    {
        let tabs = match r {
            Ok(tabs) => tabs,
            Err(e) => return self.failed(e),
        };
        let requested = match &self.requested {
            None => None,
            Some(raw) => match parse_tab_id(raw) {
                Ok(id) => Some(id),
                Err(e) => return self.failed(e),
            },
        };
        match choose_tab(&tabs, requested, preferred) {
            Some(id) => self.attaching(id),
            None => self.onward(Stage::Borrowing, ActionOf::Send(CallOf::GetUserTabs)),
        }
    }

    /// See [`after_borrowing`].
    fn after_borrowing(&mut self, reply: Result<Json, ControlError>) -> (action: Action)
        requires
            old(self).wf(),
        ensures
            final(self).wf(),
            (final(self)@, action@) == after_borrowing(old(self)@, json_result(reply)),
    {
        let id = match reply {
            Ok(accounts) => choose_user_tab(&accounts),
            Err(_) => None,
        };
        match id {
            Some(id) => {
                self.tab = id;
                self.onward(Stage::Claiming, ActionOf::Send(CallOf::ClaimUserTab(id)))
            },
            None => self.onward(Stage::Creating, ActionOf::Send(CallOf::CreateTab)),
        }
    }

    /// See [`after_claiming`].
    fn after_claiming(&mut self, reply: Result<Json, ControlError>) -> (action: Action)
        requires
            old(self).wf(),
        ensures
            final(self).wf(),
            (final(self)@, action@) == after_claiming(old(self)@, json_result(reply)),
    {
        match reply {
            Ok(_) => {
                let id = self.tab;
                self.attaching(id)
            },
            Err(e) => self.failed(e),
        }
    }

    /// See [`after_creating`].
    fn after_creating(&mut self, reply: Result<Json, ControlError>) -> (action: Action)
        requires
            old(self).wf(),
        ensures
            final(self).wf(),
            (final(self)@, action@) == after_creating(old(self)@, json_result(reply)),
    {
        let created = match reply {
            Ok(created) => created,
            Err(e) => return self.failed(e),
        };
        match value_tab_id(&created) {
            None => self.failed(ErrorOf::NoTabId),
            Some(id) => self.attaching(id),
        }
    }

    /// See [`resolved`].
    fn resolved(&mut self, config: &BrowserConfig) -> (action: Action)
        requires
            old(self).wf(),
        ensures
            final(self).wf(),
            (final(self)@, action@) == resolved(config@, old(self)@),
    {
        match &self.task {
            TaskOf::Launch { url: Some(url) } => match config.validate_url(url) {
                Ok(parts) => self.commanding(Stage::Navigating, CommandOf::Navigate(parts.href)),
                Err(e) => self.failed(e),
            },
            TaskOf::Launch { url: None } => self.onward(Stage::Arranging, ActionOf::PrepareDirs),
            TaskOf::Navigate { href } => {
                let command = CommandOf::Navigate(href.clone());
                self.commanding(Stage::Navigating, command)
            },
            TaskOf::Snapshot => {
                let script = snapshot_expression(self.tab);
                self.asking(Stage::Reading, script)
            },
            TaskOf::MoveCursor { x, y } => {
                let (x, y) = (x.clone(), y.clone());
                self.pointing(x, y, false)
            },
            TaskOf::Click { selector, text } => {
                let script = locate_expression(borrowed(selector), borrowed(text));
                self.seeking(script)
            },
            TaskOf::TypeText { selector, .. } => {
                let script = locate_expression(Some(selector.as_str()), None);
                self.seeking(script)
            },
            TaskOf::SelectOption { selector, index, .. } => {
                let script = find_select_expression(selector, *index);
                self.asking(Stage::Finding, script)
            },
            TaskOf::SetChecked { selector, .. } => {
                let script = checked_expression(selector);
                self.asking(Stage::Checking, script)
            },
            TaskOf::Scroll { selector: Some(selector), .. } => {
                let script = locate_expression(Some(selector.as_str()), None);
                self.seeking(script)
            },
            TaskOf::Scroll { selector: None, point: Some(p), .. } => {
                let (x, y) = (p.0.clone(), p.1.clone());
                self.pointing(x, y, false)
            },
            TaskOf::Scroll { selector: None, point: None, .. } => self.commanding(
                Stage::Measuring,
                CommandOf::LayoutMetrics,
            ),
            TaskOf::WaitFor { .. } => self.onward(Stage::WaitStarting, ActionOf::StartTimer),
            TaskOf::Screenshot { .. } => self.commanding(
                Stage::Capturing,
                CommandOf::CaptureScreenshot,
            ),
            TaskOf::Download { .. } => self.onward(Stage::Arranging, ActionOf::PrepareDirs),
            _ => self.astray(),
        }
    }

    /// See [`after_attaching`].
    fn after_attaching(
        &mut self,
        config: &BrowserConfig,
        reply: Result<Json, ControlError>,
    ) -> (action: Action)
        requires
            old(self).wf(),
        ensures
            final(self).wf(),
            (final(self)@, action@) == after_attaching(config@, old(self)@, json_result(reply)),
    {
        match reply {
            Ok(_) => self.resolved(config),
            Err(e) => self.failed(e),
        }
    }

    /// See [`after_navigating`].
    fn after_navigating(&mut self, reply: Result<Json, ControlError>) -> (action: Action)
        requires
            old(self).wf(),
        ensures
            final(self).wf(),
            (final(self)@, action@) == after_navigating(old(self)@, json_result(reply)),
    {
        match reply {
            Ok(_) => self.onward(Stage::ReadyStarting, ActionOf::StartTimer),
            Err(e) => self.failed(e),
        }
    }

    /// Asks whether the page is ready.
    fn asking_ready(&mut self) -> (action: Action)
        requires
            old(self).wf(),
        ensures
            final(self).wf(),
            (final(self)@, action@) == asking_ready(old(self)@),
    {
        self.asking(Stage::ReadyAsking, READY_STATE.to_owned())
    }

    /// Asks for the URL and the title of the page.
    fn identifying(&mut self) -> (action: Action)
        requires
            old(self).wf(),
        ensures
            final(self).wf(),
            (final(self)@, action@) == asking(old(self)@, Stage::Identifying, PAGE_IDENTITY@),
    {
        self.asking(Stage::Identifying, PAGE_IDENTITY.to_owned())
    }

    /// See [`after_ready_asking`].
    fn after_ready_asking(&mut self, reply: Result<Json, ControlError>) -> (action: Action)
        requires
            old(self).wf(),
        ensures
            final(self).wf(),
            (final(self)@, action@) == after_ready_asking(old(self)@, json_result(reply)),
    {
        let ready = match evaluate(reply) {
            Ok(Json::Text(state)) => same_text(&state, "complete"),
            _ => false,
        };
        if ready {
            match self.task {
                TaskOf::Launch { .. } => self.onward(Stage::Arranging, ActionOf::PrepareDirs),
                _ => self.identifying(),
            }
        } else {
            self.onward(Stage::ReadyTiming, ActionOf::ReadTimer)
        }
    }

    /// See [`after_ready_timing`].
    fn after_ready_timing(&mut self, elapsed: u64) -> (action: Action)
        requires
            old(self).wf(),
        ensures
            final(self).wf(),
            (final(self)@, action@) == after_ready_timing(old(self)@, elapsed),
    {
        if elapsed >= READY_MS {
            self.failed(ErrorOf::NotReady(READY_MS))
        } else {
            self.onward(Stage::ReadyPausing, ActionOf::Pause(200))
        }
    }

    /// See [`arranged`].
    fn arranged(&mut self) -> (action: Action)
        requires
            old(self).wf(),
        ensures
            final(self).wf(),
            (final(self)@, action@) == arranged(old(self)@),
    {
        match self.task {
            TaskOf::Download { .. } => self.commanding(Stage::Enabling, CommandOf::FetchEnable),
            _ => self.identifying(),
        }
    }

    /// See [`after_arranging`].
    fn after_arranging(
        &mut self,
        config: &BrowserConfig,
        download: bool,
        screenshot: bool,
    ) -> (action: Action)
        requires
            old(self).wf(),
        ensures
            final(self).wf(),
            (final(self)@, action@) == after_arranging(config@, old(self)@, download, screenshot),
    {
        match config.ensure_dirs(download, screenshot) {
            Ok(_) => self.commanding(
                Stage::Directing,
                CommandOf::DownloadBehavior(path_text(&config.download_dir)),
            ),
            Err(_) => self.arranged(),
        }
    }

    /// See [`after_identifying`].
    fn after_identifying(
        &mut self,
        config: &BrowserConfig,
        reply: Result<Json, ControlError>,
    ) -> (action: Action)
        requires
            old(self).wf(),
        ensures
            final(self).wf(),
            (final(self)@, action@) == after_identifying(config@, old(self)@, json_result(reply)),
    {
        let identity = match evaluate(reply) {
            Ok(identity) => identity,
            Err(e) => return self.failed(e),
        };
        match self.task {
            TaskOf::Launch { .. } => {
                let text = launch_report(config, &self.socket, self.tab, &identity);
                self.told(text)
            },
            _ => self.told(json_pretty(&identity)),
        }
    }

    /// See [`after_reading`].
    fn after_reading(&mut self, reply: Result<Json, ControlError>) -> (action: Action)
        requires
            old(self).wf(),
        ensures
            final(self).wf(),
            (final(self)@, action@) == after_reading(old(self)@, json_result(reply)),
    {
        match evaluate(reply) {
            Ok(value) => self.told(json_pretty(&value)),
            Err(e) => self.failed(e),
        }
    }

    /// See [`after_locating`].
    fn after_locating(&mut self, reply: Result<Json, ControlError>) -> (action: Action)
        requires
            old(self).wf(),
        ensures
            final(self).wf(),
            (final(self)@, action@) == after_locating(old(self)@, json_result(reply)),
    {
        let value = match locate(reply) {
            Ok(value) => value,
            Err(e) => return self.failed(e),
        };
        let p = point_from_value(&value);
        self.found = value;
        let press = match self.task {
            TaskOf::Scroll { .. } => false,
            _ => true,
        };
        self.pointing_at(p, press)
    }

    /// See [`after_finding`].
    fn after_finding(&mut self, reply: Result<Json, ControlError>) -> (action: Action)
        requires
            old(self).wf(),
        ensures
            final(self).wf(),
            (final(self)@, action@) == after_finding(old(self)@, json_result(reply)),
    {
        let value = match evaluate(reply) {
            Ok(value) => value,
            Err(e) => return self.failed(e),
        };
        if flag(&value, "ok") {
            self.pointing_at(point_from_value(&value), true)
        } else {
            self.failed(ErrorOf::NoSelect(value))
        }
    }

    /// See [`after_checking`].
    fn after_checking(&mut self, reply: Result<Json, ControlError>) -> (action: Action)
        requires
            old(self).wf(),
        ensures
            final(self).wf(),
            (final(self)@, action@) == after_checking(old(self)@, json_result(reply)),
    {
        let value = match evaluate(reply) {
            Ok(value) => value,
            Err(e) => return self.failed(e),
        };
        let checked = match self.task {
            TaskOf::SetChecked { checked, .. } => checked,
            _ => return self.astray(),
        };
        if flag(&value, "ok") {
            let press = !has_state(&value, checked);
            self.pointing_at(point_from_value(&value), press)
        } else {
            self.failed(ErrorOf::NotCheckable(value))
        }
    }

    /// See [`after_rechecking`].
    fn after_rechecking(&mut self, reply: Result<Json, ControlError>) -> (action: Action)
        requires
            old(self).wf(),
        ensures
            final(self).wf(),
            (final(self)@, action@) == after_rechecking(old(self)@, json_result(reply)),
    {
        let value = match evaluate(reply) {
            Ok(value) => value,
            Err(e) => return self.failed(e),
        };
        match &self.task {
            TaskOf::SetChecked { selector, checked } => if has_state(&value, *checked) {
                let text = checked_report(*checked, selector, self.tab);
                self.told(text)
            } else {
                self.failed(ErrorOf::NotChecked(value))
            },
            _ => self.astray(),
        }
    }

    /// See [`after_measuring`].
    fn after_measuring(&mut self, reply: Result<Json, ControlError>) -> (action: Action)
        requires
            old(self).wf(),
        ensures
            final(self).wf(),
            (final(self)@, action@) == after_measuring(old(self)@, json_result(reply)),
    {
        let metrics = match reply {
            Ok(metrics) => metrics,
            Err(e) => return self.failed(e),
        };
        match metrics.get("cssVisualViewport") {
            None => self.failed(ErrorOf::NoViewport),
            Some(viewport) => {
                let width = extent_of(viewport, "clientWidth", 1280);
                let height = extent_of(viewport, "clientHeight", 720);
                self.onward(Stage::Halving, ActionOf::Halve(width, height))
            },
        }
    }

    /// See [`after_moving`].
    fn after_moving(&mut self, reply: Result<Json, ControlError>) -> (action: Action)
        requires
            old(self).wf(),
        ensures
            final(self).wf(),
            (final(self)@, action@) == after_moving(old(self)@, json_result(reply)),
    {
        if let Err(e) = reply {
            return self.failed(e);
        }
        match &self.point {
            Some(p) => {
                let command = CommandOf::MouseMoved { x: p.0.clone(), y: p.1.clone() };
                self.commanding(Stage::Hovering, command)
            },
            None => self.astray(),
        }
    }

    /// See [`rechecking`].
    fn rechecking(&mut self) -> (action: Action)
        requires
            old(self).wf(),
        ensures
            final(self).wf(),
            (final(self)@, action@) == rechecking(old(self)@),
    {
        match &self.task {
            TaskOf::SetChecked { selector, .. } => {
                let script = checked_expression(selector);
                self.asking(Stage::Rechecking, script)
            },
            _ => self.astray(),
        }
    }

    /// See [`hovering`].
    fn hovering(&mut self, x: serde_json::Number, y: serde_json::Number) -> (action: Action)
        requires
            old(self).wf(),
        ensures
            final(self).wf(),
            (final(self)@, action@) == hovering(old(self)@, number_view(x), number_view(y)),
    {
        match &self.task {
            TaskOf::MoveCursor { .. } => {
                let text = cursor_report(&x, &y, self.tab);
                self.told(text)
            },
            TaskOf::SetChecked { .. } => self.rechecking(),
            TaskOf::Scroll { back_x, back_y, .. } => {
                let command = CommandOf::ScrollGesture {
                    x,
                    y,
                    dx: back_x.clone(),
                    dy: back_y.clone(),
                };
                self.commanding(Stage::Scrolling, command)
            },
            _ => self.astray(),
        }
    }

    /// See [`after_hovering`].
    fn after_hovering(&mut self, reply: Result<Json, ControlError>) -> (action: Action)
        requires
            old(self).wf(),
        ensures
            final(self).wf(),
            (final(self)@, action@) == after_hovering(old(self)@, json_result(reply)),
    {
        if let Err(e) = reply {
            return self.failed(e);
        }
        match &self.point {
            Some(p) => {
                let (x, y) = (p.0.clone(), p.1.clone());
                if self.press {
                    self.commanding(Stage::Pressing, CommandOf::MousePressed { x, y })
                } else {
                    self.hovering(x, y)
                }
            },
            None => self.astray(),
        }
    }

    /// See [`after_pressing`].
    fn after_pressing(&mut self, reply: Result<Json, ControlError>) -> (action: Action)
        requires
            old(self).wf(),
        ensures
            final(self).wf(),
            (final(self)@, action@) == after_pressing(old(self)@, json_result(reply)),
    {
        if let Err(e) = reply {
            return self.failed(e);
        }
        match &self.point {
            Some(p) => {
                let command = CommandOf::MouseReleased { x: p.0.clone(), y: p.1.clone() };
                self.commanding(Stage::Releasing, command)
            },
            None => self.astray(),
        }
    }

    /// See [`after_releasing`].
    fn after_releasing(&mut self, reply: Result<Json, ControlError>) -> (action: Action)
        requires
            old(self).wf(),
        ensures
            final(self).wf(),
            (final(self)@, action@) == after_releasing(old(self)@, json_result(reply)),
    {
        if let Err(e) = reply {
            return self.failed(e);
        }
        match &self.task {
            TaskOf::Click { .. } => self.onward(Stage::Settling, ActionOf::Pause(500)),
            TaskOf::TypeText { selector, text, clear, .. } => {
                let script = type_expression(selector, text, *clear);
                self.asking(Stage::Typing, script)
            },
            TaskOf::SelectOption { selector, index, option } => {
                let script = select_expression(selector, *index, option);
                self.asking(Stage::Selecting, script)
            },
            TaskOf::SetChecked { .. } => self.onward(Stage::Settling, ActionOf::Pause(100)),
            TaskOf::Download { .. } => self.onward(Stage::WaitStarting, ActionOf::StartTimer),
            _ => self.astray(),
        }
    }

    /// See [`after_settling`].
    fn after_settling(&mut self) -> (action: Action)
        requires
            old(self).wf(),
        ensures
            final(self).wf(),
            (final(self)@, action@) == after_settling(old(self)@),
    {
        match &self.task {
            TaskOf::Click { .. } => {
                let text = click_report(self.found.duplicate(), self.tab);
                self.told(text)
            },
            TaskOf::SetChecked { .. } => self.rechecking(),
            TaskOf::Scroll { dx, dy, .. } => match &self.point {
                Some(p) => {
                    let text = scroll_report(self.tab, &p.0, &p.1, dx, dy);
                    self.told(text)
                },
                None => self.astray(),
            },
            _ => self.astray(),
        }
    }

    /// See [`after_scrolling`].
    fn after_scrolling(&mut self, reply: Result<Json, ControlError>) -> (action: Action)
        requires
            old(self).wf(),
        ensures
            final(self).wf(),
            (final(self)@, action@) == after_scrolling(old(self)@, json_result(reply)),
    {
        match reply {
            Ok(_) => self.onward(Stage::Settling, ActionOf::Pause(250)),
            Err(e) => self.failed(e),
        }
    }

    /// See [`typed`].
    fn typed(&mut self) -> (action: Action)
        requires
            old(self).wf(),
        ensures
            final(self).wf(),
            (final(self)@, action@) == typed(old(self)@),
    {
        match &self.task {
            TaskOf::TypeText { selector, text, submit, .. } => {
                let text = type_report(selector, text.as_str().unicode_len(), *submit);
                self.told(text)
            },
            _ => self.astray(),
        }
    }

    /// See [`after_typing`].
    fn after_typing(&mut self, reply: Result<Json, ControlError>) -> (action: Action)
        requires
            old(self).wf(),
        ensures
            final(self).wf(),
            (final(self)@, action@) == after_typing(old(self)@, json_result(reply)),
    {
        let value = match evaluate(reply) {
            Ok(value) => value,
            Err(e) => return self.failed(e),
        };
        match &self.task {
            TaskOf::TypeText { selector, submit, .. } => if !flag(&value, "ok") {
                let e = ErrorOf::NotTyped { selector: selector.clone(), reply: value };
                self.failed(e)
            } else if *submit {
                self.onward(Stage::Submitting, ActionOf::Pause(50))
            } else {
                self.typed()
            },
            _ => self.astray(),
        }
    }

    /// Lets the enter key go down or come up.
    fn pressing_enter(&mut self, stage: Stage, kind: &str) -> (action: Action)
        requires
            old(self).wf(),
        ensures
            final(self).wf(),
            (final(self)@, action@) == commanding(old(self)@, stage, enter_key(kind@)),
    {
        self.commanding(
            stage,
            CommandOf::Key {
                kind: kind.to_owned(),
                key: "Enter".to_owned(),
                code: "Enter".to_owned(),
                virtual_key: 13,
                modifiers: 0,
            },
        )
    }

    /// See [`after_key_down`].
    fn after_key_down(&mut self, reply: Result<Json, ControlError>) -> (action: Action)
        requires
            old(self).wf(),
        ensures
            final(self).wf(),
            (final(self)@, action@) == after_key_down(old(self)@, json_result(reply)),
    {
        match reply {
            Ok(_) => self.pressing_enter(Stage::KeyUp, "keyUp"),
            Err(e) => self.failed(e),
        }
    }

    /// See [`after_key_up`].
    fn after_key_up(&mut self, reply: Result<Json, ControlError>) -> (action: Action)
        requires
            old(self).wf(),
        ensures
            final(self).wf(),
            (final(self)@, action@) == after_key_up(old(self)@, json_result(reply)),
    {
        match reply {
            Ok(_) => self.typed(),
            Err(e) => self.failed(e),
        }
    }

    /// See [`after_selecting`].
    fn after_selecting(&mut self, reply: Result<Json, ControlError>) -> (action: Action)
        requires
            old(self).wf(),
        ensures
            final(self).wf(),
            (final(self)@, action@) == after_selecting(old(self)@, json_result(reply)),
    {
        let value = match evaluate(reply) {
            Ok(value) => value,
            Err(e) => return self.failed(e),
        };
        if flag(&value, "ok") {
            let text = select_report(value, self.tab);
            self.told(text)
        } else {
            self.failed(ErrorOf::NotSelected(value))
        }
    }

    /// See [`waiting`].
    fn waiting(&mut self) -> (action: Action)
        requires
            old(self).wf(),
        ensures
            final(self).wf(),
            (final(self)@, action@) == waiting(old(self)@),
    {
        match &self.task {
            TaskOf::WaitFor { selector, text, .. } => match presence_expression(
                borrowed(selector),
                borrowed(text),
            ) {
                Ok(script) => self.asking(Stage::Waiting, script),
                Err(e) => self.failed(e),
            },
            TaskOf::Download { .. } => self.onward(Stage::Scanning, ActionOf::ListDownloads),
            _ => self.astray(),
        }
    }

    /// See [`after_waiting`].
    fn after_waiting(&mut self, reply: Result<Json, ControlError>) -> (action: Action)
        requires
            old(self).wf(),
        ensures
            final(self).wf(),
            (final(self)@, action@) == after_waiting(old(self)@, json_result(reply)),
    {
        let value = match evaluate(reply) {
            Ok(value) => value,
            Err(e) => return self.failed(e),
        };
        if flag(&value, "found") {
            self.told(json_pretty(&value))
        } else {
            self.onward(Stage::WaitTiming, ActionOf::ReadTimer)
        }
    }

    /// See [`after_wait_timing`].
    fn after_wait_timing(&mut self, config: &BrowserConfig, elapsed: u64) -> (action: Action)
        requires
            old(self).wf(),
        ensures
            final(self).wf(),
            (final(self)@, action@) == after_wait_timing(config@, old(self)@, elapsed),
    {
        match self.task {
            TaskOf::WaitFor { timeout_ms, .. } => if elapsed >= timeout_ms {
                self.failed(ErrorOf::NotFound(timeout_ms))
            } else {
                self.onward(Stage::WaitPausing, ActionOf::Pause(250))
            },
            TaskOf::Download { timeout_ms, .. } => if elapsed >= timeout_ms {
                let e = ErrorOf::NoDownload {
                    directory: path_text(&config.download_dir),
                    timeout_ms,
                    authorized: self.authorized,
                    filename: match &self.filename {
                        Some(name) => Some(name.clone()),
                        None => None,
                    },
                };
                self.releasing(Err(e))
            } else {
                self.onward(Stage::Listening, ActionOf::NextEvent(250))
            },
            _ => self.astray(),
        }
    }

    /// See [`after_enabling`].
    fn after_enabling(&mut self, reply: Result<Json, ControlError>) -> (action: Action)
        requires
            old(self).wf(),
        ensures
            final(self).wf(),
            (final(self)@, action@) == after_enabling(old(self)@, json_result(reply)),
    {
        if let Err(e) = reply {
            return self.failed(e);
        }
        match &self.task {
            TaskOf::Download { selector, text, .. } => {
                let script = locate_expression(borrowed(selector), borrowed(text));
                self.seeking(script)
            },
            _ => self.astray(),
        }
    }

    /// See [`after_scanning`].
    fn after_scanning(
        &mut self,
        config: &BrowserConfig,
        r: Result<Vec<Listed>, String>,
    ) -> (action: Action)
        requires
            old(self).wf(),
        ensures
            final(self).wf(),
            (final(self)@, action@) == after_scanning(config@, old(self)@, listing_result(r)),
    {
        let listing = match r {
            Ok(listing) => listing,
            Err(words) => return self.failed(ErrorOf::Outside(words)),
        };
        let now = directory_state(listing);
        match completed_download(&now, &self.before) {
            Some((name, size)) => {
                let path = join_path(&config.download_dir, name.as_slice());
                let text = download_report(&path_text(&path), size, self.authorized);
                self.releasing(Ok(text))
            },
            None => self.onward(Stage::WaitTiming, ActionOf::ReadTimer),
        }
    }

    /// See [`holding`].
    fn holding(&mut self, config: &BrowserConfig, message: Json) -> (action: Action)
        requires
            old(self).wf(),
        ensures
            final(self).wf(),
            (final(self)@, action@) == holding(config@, old(self)@, message@),
    {
        let (id, url) = match read_pause(message) {
            Ok(request) => request,
            Err(e) => return self.failed(e),
        };
        match config.validate_url(&url) {
            Err(_) => self.failed(ErrorOf::SourceNotAllowed(url)),
            Ok(_) => {
                self.held = id;
                let tab = self.tab;
                self.onward(Stage::Allowing, ActionOf::Send(CallOf::AllowDownload { tab, url }))
            },
        }
    }

    /// See [`reported`].
    fn reported(&mut self, message: Json) -> (action: Action)
        requires
            old(self).wf(),
        ensures
            final(self).wf(),
            (final(self)@, action@) == reported(old(self)@, message@),
    {
        if let Some(name) = text_param(&message, "filename") {
            self.filename = Some(name.to_owned());
        }
        self.waiting()
    }

    /// See [`after_listening`].
    fn after_listening(
        &mut self,
        config: &BrowserConfig,
        r: Result<Option<Json>, ControlError>,
    ) -> (action: Action)
        requires
            old(self).wf(),
        ensures
            final(self).wf(),
            (final(self)@, action@) == after_listening(config@, old(self)@, answer_view(r)),
    {
        let message = match r {
            Ok(Some(message)) => message,
            Ok(None) => return self.waiting(),
            Err(e) => return self.failed(e),
        };
        if tells_pause(&message, self.tab) {
            self.holding(config, message)
        } else if tells_method(&message, "onDownloadChange") {
            self.reported(message)
        } else {
            self.waiting()
        }
    }

    /// See [`after_allowing`].
    fn after_allowing(&mut self, reply: Result<Json, ControlError>) -> (action: Action)
        requires
            old(self).wf(),
        ensures
            final(self).wf(),
            (final(self)@, action@) == after_allowing(old(self)@, json_result(reply)),
    {
        match reply {
            Ok(_) => {
                let command = CommandOf::ContinueResponse(self.held.clone());
                self.commanding(Stage::Continuing, command)
            },
            Err(e) => self.failed(e),
        }
    }

    /// See [`after_continuing`].
    fn after_continuing(&mut self, reply: Result<Json, ControlError>) -> (action: Action)
        requires
            old(self).wf(),
        ensures
            final(self).wf(),
            (final(self)@, action@) == after_continuing(old(self)@, json_result(reply)),
    {
        match reply {
            Ok(_) => {
                self.authorized = true;
                self.waiting()
            },
            Err(e) => self.failed(e),
        }
    }

    /// See [`after_disabling`].
    fn after_disabling(&mut self) -> (action: Action)
        requires
            old(self).wf(),
        ensures
            final(self).wf(),
            (final(self)@, action@) == after_disabling(old(self)@),
    {
        match self.result.take() {
            Some(Ok(text)) => self.told(text),
            Some(Err(e)) => self.failed(e),
            None => self.astray(),
        }
    }

    /// See [`after_capturing`].
    fn after_capturing(&mut self, reply: Result<Json, ControlError>) -> (action: Action)
        requires
            old(self).wf(),
        ensures
            final(self).wf(),
            (final(self)@, action@) == after_capturing(old(self)@, json_result(reply)),
    {
        let answer = match reply {
            Ok(answer) => answer,
            Err(e) => return self.failed(e),
        };
        match image_from_value(&answer) {
            Err(e) => self.failed(e),
            Ok(image) => {
                self.size = image.len();
                self.image = image;
                self.onward(Stage::Dating, ActionOf::ReadClock)
            },
        }
    }

    /// See [`after_dating`].
    fn after_dating(&mut self, config: &BrowserConfig, now_ms: u128) -> (action: Action)
        requires
            old(self).wf(),
        ensures
            final(self).wf(),
            (final(self)@, action@) == after_dating(config@, old(self)@, now_ms),
    {
        match &self.task {
            TaskOf::Screenshot { filename } => {
                let name = safe_png_filename(borrowed(filename), now_ms);
                let path = join_path(&config.screenshot_dir, name.as_bytes_vec().as_slice());
                let mut image: Vec<u8> = Vec::new();
                std::mem::swap(&mut image, &mut self.image);
                self.path = path.clone();
                assert(self.path@ =~= path@);
                assert(self.image@ =~= Seq::<u8>::empty());
                self.onward(Stage::Saving, ActionOf::Save { path, image })
            },
            _ => self.astray(),
        }
    }

    /// See [`after_saving`].
    fn after_saving(&mut self, done: bool) -> (action: Action)
        requires
            old(self).wf(),
        ensures
            final(self).wf(),
            (final(self)@, action@) == after_saving(old(self)@, done),
    {
        if done {
            let text = screenshot_report(&self.path, self.size);
            self.told(text)
        } else {
            let e = ErrorOf::Write(path_text(&self.path));
            self.failed(e)
        }
    }

    /// Goes on from what is told.
    pub(crate) fn step(
        &mut self,
        config: &BrowserConfig,
        preferred: Option<u64>,
        event: Event,
    ) -> (action: Action)
        requires
            old(self).wf(),
        ensures
            final(self).wf(),
            (final(self)@, action@) == stepped(config@, preferred, old(self)@, event@),
    {
        match (self.stage, event) {
            (Stage::Preparing, Event::Prepared { download, screenshot }) => self.after_preparing(
                config,
                download,
                screenshot,
            ),
            (Stage::Recording, Event::Downloads(r)) => self.after_recording(r),
            (Stage::Connecting, Event::Connected(r)) => self.after_connecting(r),
            (Stage::Informing, Event::Reply(r)) => self.after_informing(r),
            (Stage::Counting, Event::Tabs(r)) => self.after_counting(config, r),
            (Stage::Opening, Event::Reply(r)) => self.after_opening(r),
            (Stage::OpenAttaching, Event::Reply(r)) => self.after_open_attaching(r),
            (Stage::Resolving, Event::Tabs(r)) => self.after_resolving(preferred, r),
            (Stage::Borrowing, Event::Reply(r)) => self.after_borrowing(r),
            (Stage::Claiming, Event::Reply(r)) => self.after_claiming(r),
            (Stage::Creating, Event::Reply(r)) => self.after_creating(r),
            (Stage::Attaching, Event::Reply(r)) => self.after_attaching(config, r),
            (Stage::Navigating, Event::Reply(r)) => self.after_navigating(r),
            (Stage::ReadyStarting, Event::Started) => self.asking_ready(),
            (Stage::ReadyAsking, Event::Reply(r)) => self.after_ready_asking(r),
            (Stage::ReadyTiming, Event::Elapsed(ms)) => self.after_ready_timing(ms),
            (Stage::ReadyPausing, Event::Paused) => self.asking_ready(),
            (Stage::Arranging, Event::Prepared { download, screenshot }) => self.after_arranging(
                config,
                download,
                screenshot,
            ),
            (Stage::Directing, Event::Reply(_)) => self.arranged(),
            (Stage::Identifying, Event::Reply(r)) => self.after_identifying(config, r),
            (Stage::Reading, Event::Reply(r)) => self.after_reading(r),
            (Stage::Locating, Event::Reply(r)) => self.after_locating(r),
            (Stage::Finding, Event::Reply(r)) => self.after_finding(r),
            (Stage::Checking, Event::Reply(r)) => self.after_checking(r),
            (Stage::Rechecking, Event::Reply(r)) => self.after_rechecking(r),
            (Stage::Measuring, Event::Reply(r)) => self.after_measuring(r),
            (Stage::Halving, Event::Halved(x, y)) => self.pointing(x, y, false),
            (Stage::Moving, Event::Reply(r)) => self.after_moving(r),
            (Stage::Hovering, Event::Reply(r)) => self.after_hovering(r),
            (Stage::Pressing, Event::Reply(r)) => self.after_pressing(r),
            (Stage::Releasing, Event::Reply(r)) => self.after_releasing(r),
            (Stage::Settling, Event::Paused) => self.after_settling(),
            (Stage::Typing, Event::Reply(r)) => self.after_typing(r),
            (Stage::Submitting, Event::Paused) => self.pressing_enter(
                Stage::KeyDown,
                "rawKeyDown",
            ),
            (Stage::KeyDown, Event::Reply(r)) => self.after_key_down(r),
            (Stage::KeyUp, Event::Reply(r)) => self.after_key_up(r),
            (Stage::Selecting, Event::Reply(r)) => self.after_selecting(r),
            (Stage::Scrolling, Event::Reply(r)) => self.after_scrolling(r),
            (Stage::WaitStarting, Event::Started) => self.waiting(),
            (Stage::Waiting, Event::Reply(r)) => self.after_waiting(r),
            (Stage::WaitTiming, Event::Elapsed(ms)) => self.after_wait_timing(config, ms),
            (Stage::WaitPausing, Event::Paused) => self.waiting(),
            (Stage::Enabling, Event::Reply(r)) => self.after_enabling(r),
            (Stage::Scanning, Event::Downloads(r)) => self.after_scanning(config, r),
            (Stage::Listening, Event::Backend(r)) => self.after_listening(config, r),
            (Stage::Allowing, Event::Reply(r)) => self.after_allowing(r),
            (Stage::Continuing, Event::Reply(r)) => self.after_continuing(r),
            (Stage::Disabling, Event::Reply(_)) => self.after_disabling(),
            (Stage::Capturing, Event::Reply(r)) => self.after_capturing(r),
            (Stage::Dating, Event::Clock(now_ms)) => self.after_dating(config, now_ms),
            (Stage::Saving, Event::Saved(done)) => self.after_saving(done),
            _ => self.astray(),
        }
    }
}

} // verus!
