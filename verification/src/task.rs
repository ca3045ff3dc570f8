//! What the controller is asked to do, what it asks for in turn, and what it
//! is told.
use crate::client::answer_view;
use crate::error::{json_result, ControlError, ErrorView};
use crate::files::{listing_view, Listed, ListedView};
use crate::json::{number_view, Json, JsonView, NumberView};
use crate::protocol::CallOf;
use crate::tabs::Tab;
use crate::text::optional_text;
use vstd::prelude::*;

verus! {

broadcast use vstd::string::group_string_axioms;

/// What is to be done in the browser. `T` is the type of texts and `N` that of
/// coordinates and distances.
#[allow(inconsistent_fields)]
#[derive(Debug)]
pub enum TaskOf<T, N> {
    /// Attach to the browser, and open a page if one is given.
    Launch { url: Option<T> },
    /// Tell what the connection leads to.
    Status,
    /// List the tabs.
    ListTabs,
    /// Open a page, whose URL was found allowed, in a new tab.
    OpenTab { href: T },
    /// Open a page, whose URL was found allowed.
    Navigate { href: T },
    /// Describe the page.
    Snapshot,
    /// Move the cursor.
    MoveCursor { x: N, y: N },
    /// Click an element.
    Click { selector: Option<T>, text: Option<T> },
    /// Type into an element.
    TypeText { selector: T, text: T, clear: bool, submit: bool },
    /// Choose an option of a select element.
    SelectOption { selector: T, index: usize, option: T },
    /// Set a checkable element.
    SetChecked { selector: T, checked: bool },
    /// Scroll by `dx` and `dy`, whose negatives are `back_x` and `back_y`: at
    /// an element, or at a point, or in the middle.
    Scroll { selector: Option<T>, point: Option<(N, N)>, dx: N, dy: N, back_x: N, back_y: N },
    /// Wait for an element.
    WaitFor { selector: Option<T>, text: Option<T>, timeout_ms: u64 },
    /// Take a screenshot.
    Screenshot { filename: Option<T> },
    /// Click an element and wait for the download that follows.
    Download { selector: Option<T>, text: Option<T>, timeout_ms: u64 },
}

/// A task as programs hold it.
pub type Task = TaskOf<String, serde_json::Number>;

/// What a task says.
pub type TaskView = TaskOf<Seq<char>, NumberView>;

/// The view of an optional point.
pub open spec fn optional_point(p: Option<(serde_json::Number, serde_json::Number)>) -> Option<
    (NumberView, NumberView),
> {
    match p {
        Some(p) => Some((number_view(p.0), number_view(p.1))),
        None => None,
    }
}

impl View for TaskOf<String, serde_json::Number> {
    type V = TaskOf<Seq<char>, NumberView>;

    open spec fn view(&self) -> TaskOf<Seq<char>, NumberView> {
        match *self {
            TaskOf::Launch { url } => TaskOf::Launch { url: optional_text(url) },
            TaskOf::Status => TaskOf::Status,
            TaskOf::ListTabs => TaskOf::ListTabs,
            TaskOf::OpenTab { href } => TaskOf::OpenTab { href: href@ },
            TaskOf::Navigate { href } => TaskOf::Navigate { href: href@ },
            TaskOf::Snapshot => TaskOf::Snapshot,
            TaskOf::MoveCursor { x, y } => TaskOf::MoveCursor {
                x: number_view(x),
                y: number_view(y),
            },
            TaskOf::Click { selector, text } => TaskOf::Click {
                selector: optional_text(selector),
                text: optional_text(text),
            },
            TaskOf::TypeText { selector, text, clear, submit } => TaskOf::TypeText {
                selector: selector@,
                text: text@,
                clear,
                submit,
            },
            TaskOf::SelectOption { selector, index, option } => TaskOf::SelectOption {
                selector: selector@,
                index,
                option: option@,
            },
            TaskOf::SetChecked { selector, checked } => TaskOf::SetChecked {
                selector: selector@,
                checked,
            },
            TaskOf::Scroll { selector, point, dx, dy, back_x, back_y } => TaskOf::Scroll {
                selector: optional_text(selector),
                point: optional_point(point),
                dx: number_view(dx),
                dy: number_view(dy),
                back_x: number_view(back_x),
                back_y: number_view(back_y),
            },
            TaskOf::WaitFor { selector, text, timeout_ms } => TaskOf::WaitFor {
                selector: optional_text(selector),
                text: optional_text(text),
                timeout_ms,
            },
            TaskOf::Screenshot { filename } => TaskOf::Screenshot {
                filename: optional_text(filename),
            },
            TaskOf::Download { selector, text, timeout_ms } => TaskOf::Download {
                selector: optional_text(selector),
                text: optional_text(text),
                timeout_ms,
            },
        }
    }
}

/// What an operation that went well ends with. `T` is the type of texts and
/// `L` that of lists of tabs.
#[derive(Debug)]
pub enum OutcomeOf<T, L> {
    Text(T),
    Tabs(L),
}

/// An outcome as programs hold it.
pub type Outcome = OutcomeOf<String, Vec<Tab>>;

/// What an outcome says.
pub type OutcomeView = OutcomeOf<Seq<char>, Seq<Tab>>;

impl View for OutcomeOf<String, Vec<Tab>> {
    type V = OutcomeOf<Seq<char>, Seq<Tab>>;

    open spec fn view(&self) -> OutcomeOf<Seq<char>, Seq<Tab>> {
        match *self {
            OutcomeOf::Text(text) => OutcomeOf::Text(text@),
            OutcomeOf::Tabs(tabs) => OutcomeOf::Tabs(tabs@),
        }
    }
}

/// What the controller asks for. `T` is the type of texts, `N` that of
/// coordinates, `B` that of bytes, `O` that of outcomes and `E` that of errors.
#[derive(Debug)]
pub enum ActionOf<T, N, B, O, E> {
    /// Connect to the browser of the task.
    Connect,
    /// Make the directory for downloads and, that done, the one for
    /// screenshots.
    PrepareDirs,
    /// Call the backend for the tabs, and read them.
    ListTabs,
    /// Call the backend.
    Send(CallOf<T, N>),
    /// Wait for so many milliseconds.
    Pause(u64),
    /// Start the timer.
    StartTimer,
    /// Tell how many whole milliseconds ago the timer was started.
    ReadTimer,
    /// Wait up to so many milliseconds for a message that answers no call.
    NextEvent(u64),
    /// List the directory for downloads.
    ListDownloads,
    /// Tell the halves of two numbers.
    Halve(N, N),
    /// Tell the time, in milliseconds into the epoch.
    ReadClock,
    /// Write a file.
    Save { path: B, image: B },
    /// Stop: this came of it.
    Finish(Result<O, E>),
}

/// An action as programs see it.
pub type Action = ActionOf<String, serde_json::Number, Vec<u8>, Outcome, ControlError>;

/// What an action says.
pub type ActionView = ActionOf<Seq<char>, NumberView, Seq<u8>, OutcomeView, ErrorView>;

/// The view of an outcome or an error.
pub open spec fn outcome_result(r: Result<Outcome, ControlError>) -> Result<
    OutcomeView,
    ErrorView,
> {
    match r {
        Ok(o) => Ok(o@),
        Err(e) => Err(e@),
    }
}

impl View for ActionOf<String, serde_json::Number, Vec<u8>, Outcome, ControlError> {
    type V = ActionOf<Seq<char>, NumberView, Seq<u8>, OutcomeView, ErrorView>;

    open spec fn view(&self) -> ActionOf<
        Seq<char>,
        NumberView,
        Seq<u8>,
        OutcomeView,
        ErrorView,
    > {
        match *self {
            ActionOf::Connect => ActionOf::Connect,
            ActionOf::PrepareDirs => ActionOf::PrepareDirs,
            ActionOf::ListTabs => ActionOf::ListTabs,
            ActionOf::Send(call) => ActionOf::Send(call@),
            ActionOf::Pause(ms) => ActionOf::Pause(ms),
            ActionOf::StartTimer => ActionOf::StartTimer,
            ActionOf::ReadTimer => ActionOf::ReadTimer,
            ActionOf::NextEvent(ms) => ActionOf::NextEvent(ms),
            ActionOf::ListDownloads => ActionOf::ListDownloads,
            ActionOf::Halve(a, b) => ActionOf::Halve(number_view(a), number_view(b)),
            ActionOf::ReadClock => ActionOf::ReadClock,
            ActionOf::Save { path, image } => ActionOf::Save { path: path@, image: image@ },
            ActionOf::Finish(r) => ActionOf::Finish(outcome_result(r)),
        }
    }
}

/// What the controller is told, action by action.
#[derive(Debug)]
pub enum Event {
    /// The socket and the turn of the connection, or why there is none.
    Connected(Result<(Vec<u8>, String), ControlError>),
    /// Whether the directories were made.
    Prepared { download: bool, screenshot: bool },
    /// The tabs.
    Tabs(Result<Vec<Tab>, ControlError>),
    /// What the backend answered.
    Reply(Result<Json, ControlError>),
    /// The pause is over.
    Paused,
    /// The timer runs.
    Started,
    /// The whole milliseconds since the timer was started.
    Elapsed(u64),
    /// A message that answers no call, or that none came.
    Backend(Result<Option<Json>, ControlError>),
    /// The entries of the directory for downloads, or why it cannot be read.
    Downloads(Result<Vec<Listed>, String>),
    /// The halves of the numbers.
    Halved(serde_json::Number, serde_json::Number),
    /// The milliseconds into the epoch.
    Clock(u128),
    /// Whether the file was written.
    Saved(bool),
}

/// What an event says.
pub enum EventView {
    Connected(Result<(Seq<u8>, Seq<char>), ErrorView>),
    Prepared { download: bool, screenshot: bool },
    Tabs(Result<Seq<Tab>, ErrorView>),
    Reply(Result<JsonView, ErrorView>),
    Paused,
    Started,
    Elapsed(u64),
    Backend(Result<Option<JsonView>, ErrorView>),
    Downloads(Result<Seq<ListedView>, Seq<char>>),
    Halved(NumberView, NumberView),
    Clock(u128),
    Saved(bool),
}

/// The view of a connection or an error.
pub open spec fn connection_result(r: Result<(Vec<u8>, String), ControlError>) -> Result<
    (Seq<u8>, Seq<char>),
    ErrorView,
> {
    match r {
        Ok(c) => Ok((c.0@, c.1@)),
        Err(e) => Err(e@),
    }
}

/// The view of some tabs or an error.
pub open spec fn tabs_result(r: Result<Vec<Tab>, ControlError>) -> Result<Seq<Tab>, ErrorView> {
    match r {
        Ok(tabs) => Ok(tabs@),
        Err(e) => Err(e@),
    }
}

/// The view of a listing or an error.
pub open spec fn listing_result(r: Result<Vec<Listed>, String>) -> Result<
    Seq<ListedView>,
    Seq<char>,
> {
    match r {
        Ok(listing) => Ok(listing_view(listing@)),
        Err(words) => Err(words@),
    }
}

impl View for Event {
    type V = EventView;

    open spec fn view(&self) -> EventView {
        match *self {
            Event::Connected(r) => EventView::Connected(connection_result(r)),
            Event::Prepared { download, screenshot } => EventView::Prepared {
                download,
                screenshot,
            },
            Event::Tabs(r) => EventView::Tabs(tabs_result(r)),
            Event::Reply(r) => EventView::Reply(json_result(r)),
            Event::Paused => EventView::Paused,
            Event::Started => EventView::Started,
            Event::Elapsed(ms) => EventView::Elapsed(ms),
            Event::Backend(r) => EventView::Backend(answer_view(r)),
            Event::Downloads(r) => EventView::Downloads(listing_result(r)),
            Event::Halved(a, b) => EventView::Halved(number_view(a), number_view(b)),
            Event::Clock(ms) => EventView::Clock(ms),
            Event::Saved(done) => EventView::Saved(done),
        }
    }
}

/// Where an operation stands: what it last asked for, and to what end.
#[derive(Clone, Copy, Debug, PartialEq, Eq, Structural)]
pub enum Stage {
    /// The directories are being made for a screenshot or a download.
    Preparing,
    /// The files before the download are being listed.
    Recording,
    /// The connection is being made.
    Connecting,
    /// The browser is describing itself.
    Informing,
    /// The tabs are being listed for the report.
    Counting,
    /// A new tab is being made for a page.
    Opening,
    /// The new tab is being attached.
    OpenAttaching,
    /// The tabs are being listed to choose one.
    Resolving,
    /// The tabs of the user are being listed.
    Borrowing,
    /// A tab of the user is being taken over.
    Claiming,
    /// A new tab is being made for want of another.
    Creating,
    /// The chosen tab is being attached.
    Attaching,
    /// The page is being opened.
    Navigating,
    /// The timer of the page is being started.
    ReadyStarting,
    /// The page is telling whether it is ready.
    ReadyAsking,
    /// The timer of the page is being read.
    ReadyTiming,
    /// The page is left alone for a while.
    ReadyPausing,
    /// The directories are being made for downloads to come.
    Arranging,
    /// The browser is being told where downloads go.
    Directing,
    /// The page is telling its URL and title.
    Identifying,
    /// The page is being described.
    Reading,
    /// The element is being looked for.
    Locating,
    /// The select element is being looked for.
    Finding,
    /// The checkable element is being looked at.
    Checking,
    /// The checkable element is being looked at once more.
    Rechecking,
    /// The page is telling its viewport.
    Measuring,
    /// The middle of the viewport is being computed.
    Halving,
    /// The cursor is on its way.
    Moving,
    /// The page is being told of the cursor.
    Hovering,
    /// The button is being pressed.
    Pressing,
    /// The button is being released.
    Releasing,
    /// The page is left alone after a click or a scroll.
    Settling,
    /// The text is being entered.
    Typing,
    /// The page is left alone before the key.
    Submitting,
    /// The key is going down.
    KeyDown,
    /// The key is coming up.
    KeyUp,
    /// The option is being chosen.
    Selecting,
    /// The page is being scrolled.
    Scrolling,
    /// The timer of the wait is being started.
    WaitStarting,
    /// The page is telling whether the element is there.
    Waiting,
    /// The timer of the wait is being read.
    WaitTiming,
    /// The page is left alone before it is asked again.
    WaitPausing,
    /// Responses are being made to pause.
    Enabling,
    /// The files are being listed.
    Scanning,
    /// A message is being waited for.
    Listening,
    /// The download is being allowed.
    Allowing,
    /// The response is being let through.
    Continuing,
    /// Responses are no longer made to pause, and the result is there.
    Disabling,
    /// The screenshot is being taken.
    Capturing,
    /// The clock is being read.
    Dating,
    /// The screenshot is being written.
    Saving,
    /// The operation is over.
    Ended,
}

} // verus!
