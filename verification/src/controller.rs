//! The controller: it starts operations, takes them further, and remembers the
//! tab that was used last.
use crate::config::{validated, BrowserConfig, ConfigView};
use crate::error::{ControlError, ErrorOf, ErrorView};
use crate::flow::{connecting, preference, preparing, stepped, Next};
use crate::json::{number_view, NumberView};
use crate::operation::Operation;
use crate::script::{one_locator, validate_locator};
use crate::task::{Action, ActionOf, Event, Stage, Task, TaskOf, TaskView};
use crate::text::{optional_str, optional_text};
use vstd::prelude::*;

verus! {

broadcast use vstd::string::group_string_axioms;

/// The controller of the browser.
#[derive(Debug)]
pub struct BrowserController {
    config: BrowserConfig,
    preferred_tab: Option<u64>,
}

/// What a controller knows.
pub struct ControllerView {
    pub config: ConfigView,
    pub preferred: Option<u64>,
}

impl View for BrowserController {
    type V = ControllerView;

    closed spec fn view(&self) -> ControllerView {
        ControllerView { config: self.config@, preferred: self.preferred_tab }
    }
}

/// The view of an operation and its first action.
pub open spec fn start(s: (Operation, Action)) -> Next {
    (s.0@, s.1@)
}

/// The view of an operation and its first action, or of why there is none.
pub open spec fn start_result(r: Result<(Operation, Action), ControlError>) -> Result<
    Next,
    ErrorView,
> {
    match r {
        Ok(s) => Ok(start(s)),
        Err(e) => Err(e@),
    }
}

/// Whether an operation was started on a task, for the tab that the caller asked
/// for.
pub open spec fn is_begun(next: Next, task: TaskView, requested: Option<Seq<char>>) -> bool {
    next.0.task == task && next.0.requested == requested
}

/// Whether what was started is in order.
pub open spec fn start_wf(r: Result<(Operation, Action), ControlError>) -> bool {
    r matches Ok(s) ==> s.0.wf()
}

/// An operation on a page, whose URL has to be allowed.
pub open spec fn visiting(
    config: ConfigView,
    input: Seq<char>,
    requested: Option<Seq<char>>,
    new_tab: bool,
) -> Result<Next, ErrorView> {
    match validated(config.allowed_hosts, input) {
        Ok(parts) => Ok(
            connecting(
                if new_tab {
                    TaskOf::OpenTab { href: parts.href }
                } else {
                    TaskOf::Navigate { href: parts.href }
                },
                requested,
            ),
        ),
        Err(e) => Err(e),
    }
}

/// An operation on an element, which has to be named in exactly one way.
pub open spec fn at_element(
    selector: Option<Seq<char>>,
    text: Option<Seq<char>>,
    next: Next,
) -> Result<Next, ErrorView> {
    if one_locator(selector, text) {
        Ok(next)
    } else {
        Err(ErrorOf::Locator)
    }
}

/// The view of an optional number.
pub open spec fn coordinate(n: Option<serde_json::Number>) -> Option<NumberView> {
    match n {
        Some(n) => Some(number_view(n)),
        None => None,
    }
}

/// The point with these coordinates, of which both or neither have to be given.
pub open spec fn both(x: Option<NumberView>, y: Option<NumberView>) -> Result<
    Option<(NumberView, NumberView)>,
    ErrorView,
> {
    match (x, y) {
        (Some(x), Some(y)) => Ok(Some((x, y))),
        (None, None) => Ok(None),
        _ => Err(ErrorOf::HalfPoint),
    }
}

/// The text, kept.
fn kept(text: Option<&str>) -> (owned: Option<String>)
    ensures
        optional_text(owned) == optional_str(text),
{
    match text {
        Some(s) => Some(s.to_owned()),
        None => None,
    }
}

/// The exec form of [`connecting`].
fn connect(task: Task, requested: Option<&str>) -> (s: (Operation, Action))
    ensures
        s.0.wf(),
        start(s) == connecting(task@, optional_str(requested)),
{
    (Operation::begin(task, requested, Stage::Connecting), ActionOf::Connect)
}

/// The exec form of [`preparing`].
fn prepare(task: Task, requested: Option<&str>) -> (s: (Operation, Action))
    ensures
        s.0.wf(),
        start(s) == preparing(task@, optional_str(requested)),
{
    (Operation::begin(task, requested, Stage::Preparing), ActionOf::PrepareDirs)
}

impl BrowserController {
    /// A controller that has used no tab.
    pub fn new(config: BrowserConfig) -> (controller: BrowserController)
        ensures
            controller@ == (ControllerView { config: config@, preferred: None }),
    {
        BrowserController { config, preferred_tab: None }
    }

    /// The configuration.
    pub fn config(&self) -> (config: &BrowserConfig)
        ensures
            config@ == self@.config,
    {
        &self.config
    }

    /// Attaches to the browser of the task, and opens a page if one is given.
    pub fn launch(&self, initial_url: Option<&str>) -> (s: (Operation, Action))
        ensures
            s.0.wf(),
            start(s) == connecting(TaskOf::Launch { url: optional_str(initial_url) }, None),
            is_begun(start(s), TaskOf::Launch { url: optional_str(initial_url) }, None),
    {
        connect(TaskOf::Launch { url: kept(initial_url) }, None)
    }

    /// Tells what the connection leads to.
    pub fn status(&self) -> (s: (Operation, Action))
        ensures
            s.0.wf(),
            start(s) == connecting(TaskOf::Status, None),
            is_begun(start(s), TaskOf::Status, None),
    {
        connect(TaskOf::Status, None)
    }

    /// Lists the tabs.
    pub fn list_tabs(&self) -> (s: (Operation, Action))
        ensures
            s.0.wf(),
            start(s) == connecting(TaskOf::ListTabs, None),
            is_begun(start(s), TaskOf::ListTabs, None),
    {
        connect(TaskOf::ListTabs, None)
    }

    /// Opens an allowed page in a new tab.
    pub fn open_tab(&self, input: &str) -> (r: Result<(Operation, Action), ControlError>)
        ensures
            start_wf(r),
            start_result(r) == visiting(self@.config, input@, None, true),
            r is Ok <==> validated(self@.config.allowed_hosts, input@) is Ok,
            r matches Ok(s) ==> (validated(self@.config.allowed_hosts, input@) matches Ok(parts)
                && is_begun(start(s), TaskOf::OpenTab { href: parts.href }, None)),
    {
        match self.config.validate_url(input) {
            Ok(parts) => Ok(connect(TaskOf::OpenTab { href: parts.href }, None)),
            Err(e) => Err(e),
        }
    }

    /// Opens an allowed page.
    pub fn navigate(&self, input: &str, tab_id: Option<&str>) -> (r: Result<
        (Operation, Action),
        ControlError,
    >)
        ensures
            start_wf(r),
            start_result(r) == visiting(self@.config, input@, optional_str(tab_id), false),
            r is Ok <==> validated(self@.config.allowed_hosts, input@) is Ok,
            r matches Ok(s) ==> (validated(self@.config.allowed_hosts, input@) matches Ok(parts)
                && is_begun(
                start(s),
                TaskOf::Navigate { href: parts.href },
                optional_str(tab_id),
            )),
    {
        match self.config.validate_url(input) {
            Ok(parts) => Ok(connect(TaskOf::Navigate { href: parts.href }, tab_id)),
            Err(e) => Err(e),
        }
    }

    /// Describes the page.
    pub fn snapshot(&self, tab_id: Option<&str>) -> (s: (Operation, Action))
        ensures
            s.0.wf(),
            start(s) == connecting(TaskOf::Snapshot, optional_str(tab_id)),
            is_begun(start(s), TaskOf::Snapshot, optional_str(tab_id)),
    {
        connect(TaskOf::Snapshot, tab_id)
    }

    /// Moves the cursor.
    pub fn move_cursor(
        &self,
        x: serde_json::Number,
        y: serde_json::Number,
        tab_id: Option<&str>,
    ) -> (s: (Operation, Action))
        ensures
            s.0.wf(),
            start(s) == connecting(
                TaskOf::MoveCursor { x: number_view(x), y: number_view(y) },
                optional_str(tab_id),
            ),
            is_begun(
                start(s),
                TaskOf::MoveCursor { x: number_view(x), y: number_view(y) },
                optional_str(tab_id),
            ),
    {
        connect(TaskOf::MoveCursor { x, y }, tab_id)
    }

    /// Clicks an element, given by exactly one of selector and text.
    pub fn click(
        &self,
        selector: Option<&str>,
        text: Option<&str>,
        tab_id: Option<&str>,
    ) -> (r: Result<(Operation, Action), ControlError>)
        ensures
            start_wf(r),
            start_result(r) == at_element(
                optional_str(selector),
                optional_str(text),
                connecting(
                    TaskOf::Click { selector: optional_str(selector), text: optional_str(text) },
                    optional_str(tab_id),
                ),
            ),
            r matches Ok(s) ==> is_begun(
                start(s),
                TaskOf::Click { selector: optional_str(selector), text: optional_str(text) },
                optional_str(tab_id),
            ),
    {
        match validate_locator(selector, text) {
            Ok(_) => Ok(
                connect(TaskOf::Click { selector: kept(selector), text: kept(text) }, tab_id),
            ),
            Err(e) => Err(e),
        }
    }

    /// Types into an element.
    pub fn type_text(
        &self,
        selector: &str,
        text: &str,
        clear: bool,
        submit: bool,
        tab_id: Option<&str>,
    ) -> (s: (Operation, Action))
        ensures
            s.0.wf(),
            start(s) == connecting(
                TaskOf::TypeText { selector: selector@, text: text@, clear, submit },
                optional_str(tab_id),
            ),
            is_begun(
                start(s),
                TaskOf::TypeText { selector: selector@, text: text@, clear, submit },
                optional_str(tab_id),
            ),
    {
        connect(
            TaskOf::TypeText {
                selector: selector.to_owned(),
                text: text.to_owned(),
                clear,
                submit,
            },
            tab_id,
        )
    }

    /// Chooses an option of the select element at an index among those that
    /// match.
    pub fn select_option(
        &self,
        selector: &str,
        selector_index: usize,
        option: &str,
        tab_id: Option<&str>,
    ) -> (s: (Operation, Action))
        ensures
            s.0.wf(),
            start(s) == connecting(
                TaskOf::SelectOption {
                    selector: selector@,
                    index: selector_index,
                    option: option@,
                },
                optional_str(tab_id),
            ),
            is_begun(
                start(s),
                TaskOf::SelectOption {
                    selector: selector@,
                    index: selector_index,
                    option: option@,
                },
                optional_str(tab_id),
            ),
    {
        connect(
            TaskOf::SelectOption {
                selector: selector.to_owned(),
                index: selector_index,
                option: option.to_owned(),
            },
            tab_id,
        )
    }

    /// Sets a checkable element.
    pub fn set_checked(&self, selector: &str, checked: bool, tab_id: Option<&str>) -> (s: (
        Operation,
        Action,
    ))
        ensures
            s.0.wf(),
            start(s) == connecting(
                TaskOf::SetChecked { selector: selector@, checked },
                optional_str(tab_id),
            ),
            is_begun(
                start(s),
                TaskOf::SetChecked { selector: selector@, checked },
                optional_str(tab_id),
            ),
    {
        connect(TaskOf::SetChecked { selector: selector.to_owned(), checked }, tab_id)
    }

    /// Scrolls by a distance, given with its negative, at an element, or at a
    /// point, or in the middle.
    pub fn scroll(
        &self,
        distance: (serde_json::Number, serde_json::Number),
        back: (serde_json::Number, serde_json::Number),
        selector: Option<&str>,
        x: Option<serde_json::Number>,
        y: Option<serde_json::Number>,
        tab_id: Option<&str>,
    ) -> (r: Result<(Operation, Action), ControlError>)
        ensures
            start_wf(r),
            start_result(r) == (match both(coordinate(x), coordinate(y)) {
                Err(e) => Err(e),
                Ok(point) => Ok(
                    connecting(
                        TaskOf::Scroll {
                            selector: optional_str(selector),
                            point,
                            dx: number_view(distance.0),
                            dy: number_view(distance.1),
                            back_x: number_view(back.0),
                            back_y: number_view(back.1),
                        },
                        optional_str(tab_id),
                    ),
                ),
            }),
            r is Ok <==> (x is Some <==> y is Some),
            r matches Ok(s) ==> is_begun(
                start(s),
                TaskOf::Scroll {
                    selector: optional_str(selector),
                    point: if x is Some {
                        Some((number_view(x->0), number_view(y->0)))
                    } else {
                        None
                    },
                    dx: number_view(distance.0),
                    dy: number_view(distance.1),
                    back_x: number_view(back.0),
                    back_y: number_view(back.1),
                },
                optional_str(tab_id),
            ),
    {
        let point = match (x, y) {
            (Some(x), Some(y)) => Some((x, y)),
            (None, None) => None,
            _ => return Err(ErrorOf::HalfPoint),
        };
        Ok(
            connect(
                TaskOf::Scroll {
                    selector: kept(selector),
                    point,
                    dx: distance.0,
                    dy: distance.1,
                    back_x: back.0,
                    back_y: back.1,
                },
                tab_id,
            ),
        )
    }

    /// Waits for an element, given by exactly one of selector and text.
    pub fn wait_for(
        &self,
        selector: Option<&str>,
        text: Option<&str>,
        timeout_ms: u64,
        tab_id: Option<&str>,
    ) -> (r: Result<(Operation, Action), ControlError>)
        ensures
            start_wf(r),
            start_result(r) == at_element(
                optional_str(selector),
                optional_str(text),
                connecting(
                    TaskOf::WaitFor {
                        selector: optional_str(selector),
                        text: optional_str(text),
                        timeout_ms,
                    },
                    optional_str(tab_id),
                ),
            ),
            r matches Ok(s) ==> is_begun(
                start(s),
                TaskOf::WaitFor {
                    selector: optional_str(selector),
                    text: optional_str(text),
                    timeout_ms,
                },
                optional_str(tab_id),
            ),
    {
        match validate_locator(selector, text) {
            Ok(_) => Ok(
                connect(
                    TaskOf::WaitFor { selector: kept(selector), text: kept(text), timeout_ms },
                    tab_id,
                ),
            ),
            Err(e) => Err(e),
        }
    }

    /// Takes a screenshot.
    pub fn screenshot(&self, filename: Option<&str>, tab_id: Option<&str>) -> (s: (
        Operation,
        Action,
    ))
        ensures
            s.0.wf(),
            start(s) == preparing(
                TaskOf::Screenshot { filename: optional_str(filename) },
                optional_str(tab_id),
            ),
            is_begun(
                start(s),
                TaskOf::Screenshot { filename: optional_str(filename) },
                optional_str(tab_id),
            ),
    {
        prepare(TaskOf::Screenshot { filename: kept(filename) }, tab_id)
    }

    /// Clicks an element, given by exactly one of selector and text, and waits
    /// for the download that follows.
    pub fn click_and_wait_for_download(
        &self,
        selector: Option<&str>,
        text: Option<&str>,
        timeout_ms: u64,
        tab_id: Option<&str>,
    ) -> (r: Result<(Operation, Action), ControlError>)
        ensures
            start_wf(r),
            start_result(r) == at_element(
                optional_str(selector),
                optional_str(text),
                preparing(
                    TaskOf::Download {
                        selector: optional_str(selector),
                        text: optional_str(text),
                        timeout_ms,
                    },
                    optional_str(tab_id),
                ),
            ),
            r matches Ok(s) ==> is_begun(
                start(s),
                TaskOf::Download {
                    selector: optional_str(selector),
                    text: optional_str(text),
                    timeout_ms,
                },
                optional_str(tab_id),
            ),
    {
        match validate_locator(selector, text) {
            Ok(_) => Ok(
                prepare(
                    TaskOf::Download { selector: kept(selector), text: kept(text), timeout_ms },
                    tab_id,
                ),
            ),
            Err(e) => Err(e),
        }
    }

    /// Takes an operation further: from what is told to what is to be done.
    pub fn advance(&mut self, operation: &mut Operation, event: Event) -> (action: Action)
        requires
            old(operation).wf(),
        ensures
            final(operation).wf(),
            (final(operation)@, action@) == stepped(
                old(self)@.config,
                old(self)@.preferred,
                old(operation)@,
                event@,
            ),
            final(self)@ == (ControllerView {
                config: old(self)@.config,
                preferred: preference(old(self)@.preferred, old(operation)@, event@),
            }),
    {
        let preferred = self.preferred_tab;
        self.preferred_tab = operation.preference(preferred, &event);
        operation.step(&self.config, preferred, event)
    }
}

} // verus!
