//! What holds in the whole course of an operation.
use crate::config::{validated, ConfigView};
use crate::error::{ErrorOf, ErrorView};
use crate::flow::{is_checked, is_ready, stepped, Next, OperationView};
use crate::files::{completed, files_of, is_safe_text, law_filename_is_safe, png_name};
use crate::path::{joined_path, lossy};
use crate::protocol::{CallOf, CommandOf, CommandView};
use crate::reply::{evaluated, says};
use crate::report::download_text;
use crate::script::{
    checked_script, find_select_script, locate_script, one_locator, presence_script, select_script,
    snapshot_script, type_script,
};
use crate::task::{
    ActionOf, ActionView, EventView, OutcomeOf, OutcomeView, Stage, TaskOf, TaskView,
};
use vstd::prelude::*;
use vstd::utf8::encode_utf8;

verus! {

broadcast use vstd::string::group_string_axioms;

/// Whether a URL in its final form is that of an allowed page.
pub open spec fn is_allowed(hosts: Seq<Seq<char>>, href: Seq<char>) -> bool {
    exists|input: Seq<char>|
        (#[trigger] validated(hosts, input)) matches Ok(parts) && parts.href == href
}

/// Whether a task may be taken on.
pub open spec fn is_admissible(config: ConfigView, task: TaskView) -> bool {
    match task {
        TaskOf::OpenTab { href } => is_allowed(config.allowed_hosts, href),
        TaskOf::Navigate { href } => is_allowed(config.allowed_hosts, href),
        TaskOf::Click { selector, text } => one_locator(selector, text),
        TaskOf::WaitFor { selector, text, .. } => one_locator(selector, text),
        TaskOf::Download { selector, text, .. } => one_locator(selector, text),
        _ => true,
    }
}

/// Whether a task is one on a tab that is open already, if any is.
pub open spec fn is_on_tab(task: TaskView) -> bool {
    !(task is Status || task is ListTabs || task is OpenTab)
}

/// Whether a task opens a page.
pub open spec fn opens_page(task: TaskView) -> bool {
    task is Launch || task is OpenTab || task is Navigate
}

/// Whether a task clicks.
pub open spec fn clicks(task: TaskView) -> bool {
    task is Click || task is TypeText || task is SelectOption || task is SetChecked
        || task is Download
}

/// Whether a task moves the cursor without a click.
pub open spec fn hovers(task: TaskView) -> bool {
    task is MoveCursor || task is SetChecked || task is Scroll
}

/// Whether an operation stands where its task leads.
pub open spec fn is_on_course(op: OperationView) -> bool {
    match op.stage {
        Stage::Preparing => op.task is Screenshot || op.task is Download,
        Stage::Recording => op.task is Download,
        Stage::Connecting => true,
        Stage::Informing => op.task is Status,
        Stage::Counting => op.task is Status || op.task is ListTabs,
        Stage::Opening => op.task is OpenTab,
        Stage::OpenAttaching => op.task is OpenTab,
        Stage::Resolving => is_on_tab(op.task),
        Stage::Borrowing => is_on_tab(op.task),
        Stage::Claiming => is_on_tab(op.task),
        Stage::Creating => is_on_tab(op.task),
        Stage::Attaching => is_on_tab(op.task),
        Stage::Navigating => opens_page(op.task),
        Stage::ReadyStarting => opens_page(op.task),
        Stage::ReadyAsking => opens_page(op.task),
        Stage::ReadyTiming => opens_page(op.task),
        Stage::ReadyPausing => opens_page(op.task),
        Stage::Arranging => op.task is Launch || op.task is Download,
        Stage::Directing => op.task is Launch || op.task is Download,
        Stage::Identifying => opens_page(op.task),
        Stage::Reading => op.task is Snapshot,
        Stage::Locating => op.task is Click || op.task is TypeText || op.task is Scroll
            || op.task is Download,
        Stage::Finding => op.task is SelectOption,
        Stage::Checking => op.task is SetChecked,
        Stage::Rechecking => op.task is SetChecked,
        Stage::Measuring => op.task is Scroll,
        Stage::Halving => op.task is Scroll,
        Stage::Moving => op.point is Some && (if op.press {
            clicks(op.task)
        } else {
            hovers(op.task)
        }),
        Stage::Hovering => op.point is Some && (if op.press {
            clicks(op.task)
        } else {
            hovers(op.task)
        }),
        Stage::Pressing => op.point is Some && clicks(op.task),
        Stage::Releasing => op.point is Some && clicks(op.task),
        Stage::Settling => op.task is Click || op.task is SetChecked || (op.task is Scroll
            && op.point is Some),
        Stage::Typing => op.task is TypeText,
        Stage::Submitting => op.task matches TaskOf::TypeText { submit, .. } && submit,
        Stage::KeyDown => op.task matches TaskOf::TypeText { submit, .. } && submit,
        Stage::KeyUp => op.task matches TaskOf::TypeText { submit, .. } && submit,
        Stage::Selecting => op.task is SelectOption,
        Stage::Scrolling => op.task is Scroll && op.point is Some,
        Stage::WaitStarting => op.task is WaitFor || op.task is Download,
        Stage::Waiting => op.task is WaitFor,
        Stage::WaitTiming => op.task is WaitFor || op.task is Download,
        Stage::WaitPausing => op.task is WaitFor,
        Stage::Enabling => op.task is Download,
        Stage::Scanning => op.task is Download,
        Stage::Listening => op.task is Download,
        Stage::Allowing => op.task is Download,
        Stage::Continuing => op.task is Download,
        Stage::Disabling => op.task is Download && op.result is Some && (op.result matches Some(
            Err(e),
        ) ==> e is NoDownload),
        Stage::Capturing => op.task is Screenshot,
        Stage::Dating => op.task is Screenshot,
        Stage::Saving => op.task is Screenshot,
        Stage::Ended => true,
    }
}

/// Whether an action sends a command to the tab of the operation.
pub open spec fn commands(op: OperationView, action: ActionView, command: CommandView) -> bool {
    action == ActionView::Send(CallOf::Cdp { tab: op.tab, command })
}

/// Whether an action has the page of the operation run a script.
pub open spec fn runs_script(op: OperationView, action: ActionView, script: Seq<char>) -> bool {
    commands(op, action, CommandOf::Evaluate(script))
}

/// The enter key goes down or comes up, with no other key.
pub open spec fn enter(kind: Seq<char>) -> CommandView {
    CommandOf::Key { kind, key: "Enter"@, code: "Enter"@, virtual_key: 13, modifiers: 0 }
}

/// Whether an address is the one that a task opens: the one that was judged
/// when it was given, or that of a launch, once it is judged.
pub open spec fn is_address(config: ConfigView, task: TaskView, href: Seq<char>) -> bool {
    match task {
        TaskOf::OpenTab { href: own } => own == href,
        TaskOf::Navigate { href: own } => own == href,
        TaskOf::Launch { url: Some(url) } => validated(config.allowed_hosts, url) matches Ok(parts)
            && parts.href == href,
        _ => false,
    }
}

/// Whether a path is that of a screenshot: a safe name in its directory.
pub open spec fn is_screenshot_path(config: ConfigView, path: Seq<u8>) -> bool {
    exists|name: Seq<char>|
        is_safe_text(name) && path == #[trigger] joined_path(
            config.screenshot_dir,
            encode_utf8(name),
        )
}

/// Whether an action is the one that the operation waits for.
pub open spec fn is_asked(config: ConfigView, op: OperationView, action: ActionView) -> bool {
    match op.stage {
        Stage::Preparing => action is PrepareDirs,
        Stage::Recording => action is ListDownloads,
        Stage::Connecting => action is Connect,
        Stage::Informing => action == ActionView::Send(CallOf::GetInfo),
        Stage::Counting => action is ListTabs,
        Stage::Opening => action == ActionView::Send(CallOf::CreateTab),
        Stage::OpenAttaching => action == ActionView::Send(CallOf::Attach(op.tab)),
        Stage::Resolving => action is ListTabs,
        Stage::Borrowing => action == ActionView::Send(CallOf::GetUserTabs),
        Stage::Claiming => action == ActionView::Send(CallOf::ClaimUserTab(op.tab)),
        Stage::Creating => action == ActionView::Send(CallOf::CreateTab),
        Stage::Attaching => action == ActionView::Send(CallOf::Attach(op.tab)),
        Stage::Navigating => action matches ActionOf::Send(
            CallOf::Cdp { tab, command: CommandOf::Navigate(href) },
        ) && tab == op.tab && is_allowed(config.allowed_hosts, href) && is_address(
            config,
            op.task,
            href,
        ),
        Stage::ReadyStarting => action is StartTimer,
        Stage::ReadyAsking => runs_script(op, action, "document.readyState"@),
        Stage::ReadyTiming => action is ReadTimer,
        Stage::ReadyPausing => action == ActionView::Pause(200),
        Stage::Arranging => action is PrepareDirs,
        Stage::Directing => commands(
            op,
            action,
            CommandOf::DownloadBehavior(lossy(config.download_dir)),
        ),
        Stage::Identifying => runs_script(
            op,
            action,
            "({url: location.href, title: document.title})"@,
        ),
        Stage::Reading => runs_script(op, action, snapshot_script(op.tab)),
        Stage::Locating => match op.task {
            TaskOf::Click { selector, text } => runs_script(
                op,
                action,
                locate_script(selector, text),
            ),
            TaskOf::Download { selector, text, .. } => runs_script(
                op,
                action,
                locate_script(selector, text),
            ),
            TaskOf::TypeText { selector, .. } => runs_script(
                op,
                action,
                locate_script(Some(selector), None),
            ),
            TaskOf::Scroll { selector, .. } => selector is Some && runs_script(
                op,
                action,
                locate_script(selector, None),
            ),
            _ => false,
        },
        Stage::Finding => op.task matches TaskOf::SelectOption { selector, index, .. }
            && runs_script(op, action, find_select_script(selector, index as nat)),
        Stage::Checking => op.task matches TaskOf::SetChecked { selector, .. } && runs_script(
            op,
            action,
            checked_script(selector),
        ),
        Stage::Rechecking => op.task matches TaskOf::SetChecked { selector, .. } && runs_script(
            op,
            action,
            checked_script(selector),
        ),
        Stage::Measuring => commands(op, action, CommandOf::LayoutMetrics),
        Stage::Halving => action is Halve,
        Stage::Moving => op.point matches Some(p) && action == ActionView::Send(
            CallOf::MoveMouse { tab: op.tab, x: p.0, y: p.1 },
        ),
        Stage::Hovering => op.point matches Some(p) && commands(
            op,
            action,
            CommandOf::MouseMoved { x: p.0, y: p.1 },
        ),
        Stage::Pressing => op.point matches Some(p) && commands(
            op,
            action,
            CommandOf::MousePressed { x: p.0, y: p.1 },
        ),
        Stage::Releasing => op.point matches Some(p) && commands(
            op,
            action,
            CommandOf::MouseReleased { x: p.0, y: p.1 },
        ),
        Stage::Settling => action == ActionView::Pause(
            if op.task is Click {
                500
            } else if op.task is SetChecked {
                100
            } else {
                250
            },
        ),
        Stage::Typing => op.task matches TaskOf::TypeText { selector, text, clear, .. }
            && runs_script(op, action, type_script(selector, text, clear)),
        Stage::Submitting => action == ActionView::Pause(50),
        Stage::KeyDown => commands(op, action, enter("rawKeyDown"@)),
        Stage::KeyUp => commands(op, action, enter("keyUp"@)),
        Stage::Selecting => op.task matches TaskOf::SelectOption { selector, index, option }
            && runs_script(op, action, select_script(selector, index as nat, option)),
        Stage::Scrolling => op.task matches TaskOf::Scroll { back_x, back_y, .. }
            && op.point matches Some(p) && commands(
            op,
            action,
            CommandOf::ScrollGesture { x: p.0, y: p.1, dx: back_x, dy: back_y },
        ),
        Stage::WaitStarting => action is StartTimer,
        Stage::Waiting => op.task matches TaskOf::WaitFor { selector, text, .. } && runs_script(
            op,
            action,
            presence_script(selector, text),
        ),
        Stage::WaitTiming => action is ReadTimer,
        Stage::WaitPausing => action == ActionView::Pause(250),
        Stage::Enabling => commands(op, action, CommandOf::FetchEnable),
        Stage::Scanning => action is ListDownloads,
        Stage::Listening => action == ActionView::NextEvent(250),
        Stage::Allowing => action matches ActionOf::Send(CallOf::AllowDownload { tab, url }) && tab
            == op.tab && validated(config.allowed_hosts, url) is Ok,
        Stage::Continuing => commands(op, action, CommandOf::ContinueResponse(op.held)),
        Stage::Disabling => commands(op, action, CommandOf::FetchDisable),
        Stage::Capturing => commands(op, action, CommandOf::CaptureScreenshot),
        Stage::Dating => action is ReadClock,
        Stage::Saving => action matches ActionOf::Save { path, .. } && is_screenshot_path(
            config,
            path,
        ),
        Stage::Ended => action is Finish,
    }
}

/// Whether all is well with an operation that asked for an action.
pub open spec fn is_sound(config: ConfigView, op: OperationView, action: ActionView) -> bool {
    &&& is_admissible(config, op.task)
    &&& is_on_course(op)
    &&& is_asked(config, op, action)
}

/// Whether an event is what an action asks for.
pub open spec fn answers(event: EventView, action: ActionView) -> bool {
    match action {
        ActionOf::Connect => event is Connected,
        ActionOf::PrepareDirs => event is Prepared,
        ActionOf::ListTabs => event is Tabs,
        ActionOf::Send(_) => event is Reply,
        ActionOf::Pause(_) => event is Paused,
        ActionOf::StartTimer => event is Started,
        ActionOf::ReadTimer => event is Elapsed,
        ActionOf::NextEvent(_) => event is Backend,
        ActionOf::ListDownloads => event is Downloads,
        ActionOf::Halve(_, _) => event is Halved,
        ActionOf::ReadClock => event is Clock,
        ActionOf::Save { .. } => event is Saved,
        ActionOf::Finish(_) => false,
    }
}

/// Whether the work on a tab has begun.
pub open spec fn is_at_work(stage: Stage) -> bool {
    match stage {
        Stage::Preparing => false,
        Stage::Recording => false,
        Stage::Connecting => false,
        Stage::Informing => false,
        Stage::Counting => false,
        Stage::Opening => false,
        Stage::OpenAttaching => false,
        Stage::Resolving => false,
        Stage::Borrowing => false,
        Stage::Claiming => false,
        Stage::Creating => false,
        Stage::Attaching => false,
        Stage::Ended => false,
        _ => true,
    }
}

/// Whether an event that comes to an operation shows the completed download
/// that a text reports: a listing of the directory for downloads, in which none
/// is under way, and of its fresh files the one that the text names, with its
/// size.
pub open spec fn is_evidence(
    config: ConfigView,
    op: OperationView,
    event: EventView,
    text: Seq<char>,
) -> bool {
    &&& op.stage is Scanning
    &&& event matches EventView::Downloads(Ok(listing))
    &&& completed(files_of(listing), op.before) matches Some(file)
    &&& text == download_text(
        lossy(joined_path(config.download_dir, file.0)),
        file.1,
        op.authorized,
    )
}

/// Whether an event carries an error.
pub open spec fn carries(event: EventView, e: ErrorView) -> bool {
    match event {
        EventView::Connected(Err(got)) => got == e,
        EventView::Tabs(Err(got)) => got == e,
        EventView::Reply(Err(got)) => got == e,
        EventView::Backend(Err(got)) => got == e,
        _ => false,
    }
}

/// Whether an event is the answer of a script with a value of which `key` is
/// true.
pub open spec fn says_so(event: EventView, key: Seq<char>) -> bool {
    event matches EventView::Reply(r) && (evaluated(r) matches Ok(value) && says(value, key))
}

/// Whether an event is the answer of a script that an element has a state.
pub open spec fn shows_state(event: EventView, checked: bool) -> bool {
    event matches EventView::Reply(r) && (evaluated(r) matches Ok(value) && is_checked(
        value,
        checked,
    ))
}

/// Whether an operation that ends well at an event does so for good reason.
pub open spec fn is_earned(op: OperationView, event: EventView, outcome: OutcomeView) -> bool {
    match op.task {
        TaskOf::SetChecked { checked, .. } => op.stage is Rechecking && shows_state(event, checked),
        TaskOf::WaitFor { .. } => op.stage is Waiting && says_so(event, "found"@),
        TaskOf::SelectOption { .. } => op.stage is Selecting && says_so(event, "ok"@),
        TaskOf::TypeText { submit, .. } => if submit {
            op.stage is KeyUp
        } else {
            op.stage is Typing && says_so(event, "ok"@)
        },
        TaskOf::Screenshot { .. } => op.stage is Saving && event == EventView::Saved(true),
        TaskOf::Click { .. } => op.stage is Settling,
        TaskOf::Scroll { .. } => op.stage is Settling,
        TaskOf::OpenTab { .. } => op.stage is Identifying,
        TaskOf::Navigate { .. } => op.stage is Identifying,
        TaskOf::Download { .. } => op.stage is Disabling && (outcome matches OutcomeOf::Text(text)
            && op.result == Some(Ok::<Seq<char>, ErrorView>(text))),
        _ => true,
    }
}

/// Whether a step keeps what an operation is about: its task, the tab that was
/// asked for, the connection, the tab and the point of the cursor on the way to
/// a click, the response that is held, what is known of the download, and the
/// files before it.
pub open spec fn is_consequent(
    config: ConfigView,
    op: OperationView,
    event: EventView,
    next: OperationView,
) -> bool {
    &&& next.task == op.task
    &&& next.requested == op.requested
    &&& (next.socket, next.turn) == (match (op.stage, event) {
        (Stage::Connecting, EventView::Connected(Ok(c))) => c,
        _ => (op.socket, op.turn),
    })
    &&& next.stage is Connecting ==> op.stage is Preparing || op.stage is Recording
    &&& is_at_work(next.stage) ==> next.tab == op.tab && (is_at_work(op.stage) || ((
    op.stage is Attaching || op.stage is OpenAttaching) && (event matches EventView::Reply(Ok(_)))))
    &&& next.stage is Moving ==> (op.task matches TaskOf::SetChecked { checked, .. } ==> op.stage is
        Checking && next.press == !shows_state(event, checked))
    &&& next.stage is Hovering ==> op.stage is Moving && next.point == op.point && next.press
        == op.press
    &&& next.stage is Pressing ==> op.stage is Hovering && next.point == op.point && op.press
    &&& next.stage is Releasing ==> op.stage is Pressing && next.point == op.point
    &&& next.stage is Scrolling ==> op.stage is Hovering && next.point == op.point
    &&& next.stage is Settling ==> (op.stage is Releasing || op.stage is Scrolling) && (
    event matches EventView::Reply(Ok(_)))
    &&& next.stage is Identifying && !(op.task is Launch) ==> op.stage is ReadyAsking && (
    event matches EventView::Reply(r) && is_ready(r))
    &&& next.stage is Continuing ==> op.stage is Allowing && next.held == op.held && (
    event matches EventView::Reply(Ok(_)))
    &&& next.authorized == (op.authorized || (op.stage is Continuing && (
    event matches EventView::Reply(Ok(_)))))
    &&& next.filename == op.filename || op.stage is Listening
    &&& next.result matches Some(Ok(text)) ==> next.result == op.result || is_evidence(
        config,
        op,
        event,
        text,
    )
    &&& op.stage is Ended ==> next.stage is Ended
    &&& is_at_work(op.stage) || op.stage is Attaching ==> next.tab == op.tab && (is_at_work(
        next.stage,
    ) || next.stage is Ended)
    &&& !(next.stage is Preparing)
    &&& next.stage is Recording ==> op.stage is Preparing
    &&& next.before == (match (op.stage, event) {
        (Stage::Recording, EventView::Downloads(Ok(listing))) => files_of(listing),
        _ => op.before,
    })
}

/// Whether a step is sound: all stays well, an operation ends well only for
/// good reason, and it does not go astray over a fitting answer.
pub open spec fn is_sound_step(
    config: ConfigView,
    op: OperationView,
    action: ActionView,
    event: EventView,
    next: Next,
) -> bool {
    &&& is_sound(config, next.0, next.1)
    &&& is_consequent(config, op, event, next.0)
    &&& next.1 matches ActionOf::Finish(Ok(outcome)) ==> is_earned(op, event, outcome)
    &&& answers(event, action) && next.1 == ActionView::Finish(Err(ErrorOf::OutOfStep)) ==> carries(
        event,
        ErrorOf::OutOfStep,
    )
}

/// The setting up of an operation leaves an operation sound.
proof fn lemma_sound_setup(
    config: ConfigView,
    preferred: Option<u64>,
    op: OperationView,
    action: ActionView,
    event: EventView,
)
    requires
        is_sound(config, op, action),
        op.stage is Preparing || op.stage is Recording || op.stage is Connecting
            || op.stage is Informing || op.stage is Counting || op.stage is Opening
            || op.stage is OpenAttaching,
    ensures
        is_sound_step(config, op, action, event, stepped(config, preferred, op, event)),
{
}

/// The choice of a tab leaves an operation sound.
proof fn lemma_sound_resolve(
    config: ConfigView,
    preferred: Option<u64>,
    op: OperationView,
    action: ActionView,
    event: EventView,
)
    requires
        is_sound(config, op, action),
        op.stage is Resolving || op.stage is Borrowing || op.stage is Claiming
            || op.stage is Creating,
    ensures
        is_sound_step(config, op, action, event, stepped(config, preferred, op, event)),
{
}

/// The beginning of the work on a tab leaves an operation sound.
proof fn lemma_sound_begin(
    config: ConfigView,
    preferred: Option<u64>,
    op: OperationView,
    action: ActionView,
    event: EventView,
)
    requires
        is_sound(config, op, action),
        op.stage is Attaching,
    ensures
        is_sound_step(config, op, action, event, stepped(config, preferred, op, event)),
{
}

/// The opening of a page leaves an operation sound.
proof fn lemma_sound_page(
    config: ConfigView,
    preferred: Option<u64>,
    op: OperationView,
    action: ActionView,
    event: EventView,
)
    requires
        is_sound(config, op, action),
        op.stage is Navigating || op.stage is ReadyStarting || op.stage is ReadyAsking
            || op.stage is ReadyTiming || op.stage is ReadyPausing || op.stage is Arranging
            || op.stage is Directing || op.stage is Identifying || op.stage is Reading,
    ensures
        is_sound_step(config, op, action, event, stepped(config, preferred, op, event)),
{
}

/// The search for an element leaves an operation sound.
proof fn lemma_sound_find(
    config: ConfigView,
    preferred: Option<u64>,
    op: OperationView,
    action: ActionView,
    event: EventView,
)
    requires
        is_sound(config, op, action),
        op.stage is Locating || op.stage is Finding || op.stage is Checking
            || op.stage is Rechecking || op.stage is Measuring || op.stage is Halving,
    ensures
        is_sound_step(config, op, action, event, stepped(config, preferred, op, event)),
{
}

/// The way of the cursor leaves an operation sound.
proof fn lemma_sound_pointer(
    config: ConfigView,
    preferred: Option<u64>,
    op: OperationView,
    action: ActionView,
    event: EventView,
)
    requires
        is_sound(config, op, action),
        op.stage is Moving || op.stage is Hovering || op.stage is Pressing
            || op.stage is Releasing || op.stage is Settling,
    ensures
        is_sound_step(config, op, action, event, stepped(config, preferred, op, event)),
{
}

/// The input of text and gestures leaves an operation sound.
proof fn lemma_sound_input(
    config: ConfigView,
    preferred: Option<u64>,
    op: OperationView,
    action: ActionView,
    event: EventView,
)
    requires
        is_sound(config, op, action),
        op.stage is Typing || op.stage is Submitting || op.stage is KeyDown || op.stage is KeyUp
            || op.stage is Selecting || op.stage is Scrolling,
    ensures
        is_sound_step(config, op, action, event, stepped(config, preferred, op, event)),
{
}

/// A wait leaves an operation sound.
proof fn lemma_sound_wait(
    config: ConfigView,
    preferred: Option<u64>,
    op: OperationView,
    action: ActionView,
    event: EventView,
)
    requires
        is_sound(config, op, action),
        op.stage is WaitStarting || op.stage is Waiting || op.stage is WaitTiming
            || op.stage is WaitPausing,
    ensures
        is_sound_step(config, op, action, event, stepped(config, preferred, op, event)),
{
}

/// A download leaves an operation sound.
proof fn lemma_sound_download(
    config: ConfigView,
    preferred: Option<u64>,
    op: OperationView,
    action: ActionView,
    event: EventView,
)
    requires
        is_sound(config, op, action),
        op.stage is Enabling || op.stage is Scanning || op.stage is Listening
            || op.stage is Allowing || op.stage is Continuing
            || op.stage is Disabling,
    ensures
        is_sound_step(config, op, action, event, stepped(config, preferred, op, event)),
{
}

/// A screenshot leaves an operation sound.
proof fn lemma_sound_capture(
    config: ConfigView,
    preferred: Option<u64>,
    op: OperationView,
    action: ActionView,
    event: EventView,
)
    requires
        is_sound(config, op, action),
        op.stage is Capturing || op.stage is Dating || op.stage is Saving || op.stage is Ended,
    ensures
        is_sound_step(config, op, action, event, stepped(config, preferred, op, event)),
{
    if let (Stage::Dating, EventView::Clock(now_ms), TaskOf::Screenshot { filename }) = (
        op.stage,
        event,
        op.task,
    ) {
        let name = png_name(filename, now_ms as nat);
        law_filename_is_safe(filename, now_ms as nat);
        assert(is_screenshot_path(
            config,
            joined_path(config.screenshot_dir, encode_utf8(name)),
        ));
    }
}

/// All stays well from step to step.
pub proof fn lemma_sound_step(
    config: ConfigView,
    preferred: Option<u64>,
    op: OperationView,
    action: ActionView,
    event: EventView,
)
    requires
        is_sound(config, op, action),
    ensures
        is_sound_step(config, op, action, event, stepped(config, preferred, op, event)),
{
    match op.stage {
        Stage::Preparing | Stage::Recording | Stage::Connecting | Stage::Informing
        | Stage::Counting | Stage::Opening | Stage::OpenAttaching => {
            lemma_sound_setup(config, preferred, op, action, event);
        },
        Stage::Resolving | Stage::Borrowing | Stage::Claiming | Stage::Creating => {
            lemma_sound_resolve(config, preferred, op, action, event);
        },
        Stage::Attaching => {
            lemma_sound_begin(config, preferred, op, action, event);
        },
        Stage::Navigating | Stage::ReadyStarting | Stage::ReadyAsking | Stage::ReadyTiming
        | Stage::ReadyPausing | Stage::Arranging | Stage::Directing | Stage::Identifying
        | Stage::Reading => {
            lemma_sound_page(config, preferred, op, action, event);
        },
        Stage::Locating | Stage::Finding | Stage::Checking | Stage::Rechecking
        | Stage::Measuring | Stage::Halving => {
            lemma_sound_find(config, preferred, op, action, event);
        },
        Stage::Moving | Stage::Hovering | Stage::Pressing | Stage::Releasing | Stage::Settling => {
            lemma_sound_pointer(config, preferred, op, action, event);
        },
        Stage::Typing | Stage::Submitting | Stage::KeyDown | Stage::KeyUp | Stage::Selecting
        | Stage::Scrolling => {
            lemma_sound_input(config, preferred, op, action, event);
        },
        Stage::WaitStarting | Stage::Waiting | Stage::WaitTiming | Stage::WaitPausing => {
            lemma_sound_wait(config, preferred, op, action, event);
        },
        Stage::Enabling | Stage::Scanning | Stage::Listening | Stage::Allowing
        | Stage::Continuing | Stage::Disabling => {
            lemma_sound_download(config, preferred, op, action, event);
        },
        Stage::Capturing | Stage::Dating | Stage::Saving | Stage::Ended => {
            lemma_sound_capture(config, preferred, op, action, event);
        },
    }
}

} // verus!
