//! Laws of the controller: what holds of every run of an operation, whatever
//! the browser answers.
use crate::config::{validated, ConfigView};
use crate::controller::{at_element, visiting};
use crate::course::{
    answers, carries, is_admissible, is_allowed, is_at_work, is_earned, is_evidence,
    is_screenshot_path, is_sound, is_sound_step, lemma_sound_step, shows_state,
};
use crate::error::{ErrorOf, ErrorView};
use crate::files::{completed, files_of, is_fresh, is_partial, law_download_is_fresh};
use crate::flow::{
    attaching, connecting, is_exclusive, is_ready, preference, preparing, stepped, wanted_tab, Next,
    OperationView, READY_MS,
};
use crate::json::NumberView;
use crate::path::{joined_path, lossy};
use crate::protocol::{CallOf, CommandOf};
use crate::reply::{evaluated, point_of, says};
use crate::report::download_text;
use crate::tabs::{
    chosen_tab, first_active, is_open, law_active_tab_is_used, law_choice_is_stable,
    law_chosen_tab_is_open, Tab,
};
use crate::task::{ActionOf, ActionView, EventView, OutcomeOf, TaskOf, TaskView};
use vstd::prelude::*;

verus! {

broadcast use vstd::string::group_string_axioms;

/// A run of an operation: where it stood and what it asked for, step by step,
/// what it was told in between, and which tab was preferred when it was told.
pub struct Run {
    pub ops: Seq<OperationView>,
    pub actions: Seq<ActionView>,
    pub events: Seq<EventView>,
    pub preferred: Seq<Option<u64>>,
}

/// Whether an operation starts like this.
pub open spec fn is_start(config: ConfigView, next: Next) -> bool {
    let task = next.0.task;
    &&& is_admissible(config, task)
    &&& if task is Screenshot || task is Download {
        next == preparing(task, next.0.requested)
    } else {
        next == connecting(task, next.0.requested)
    }
}

/// Whether a run goes as operations do.
pub open spec fn is_run(config: ConfigView, run: Run) -> bool {
    &&& run.ops.len() > 0
    &&& run.actions.len() == run.ops.len()
    &&& run.events.len() == run.ops.len() - 1
    &&& run.preferred.len() == run.ops.len() - 1
    &&& is_start(config, (run.ops[0], run.actions[0]))
    &&& forall|i: int|
        0 <= i < run.events.len() ==> (run.ops[i + 1], run.actions[i + 1]) == stepped(
            config,
            run.preferred[i],
            run.ops[i],
            #[trigger] run.events[i],
        )
}

/// Whether every event of a run answers the action before it.
pub open spec fn is_in_step(run: Run) -> bool {
    forall|i: int| 0 <= i < run.events.len() ==> answers(#[trigger] run.events[i], run.actions[i])
}

/// All is well at every point of a run, and its task stays the same.
pub proof fn lemma_run(config: ConfigView, run: Run, at: int)
    requires
        is_run(config, run),
        0 <= at < run.ops.len(),
    ensures
        is_sound(config, run.ops[at], run.actions[at]),
        run.ops[at].task == run.ops[0].task,
    decreases at,
{
    if at > 0 {
        lemma_run(config, run, at - 1);
        let event = run.events[at - 1];
        lemma_sound_step(
            config,
            run.preferred[at - 1],
            run.ops[at - 1],
            run.actions[at - 1],
            event,
        );
    }
}

/// Every step of a run is sound.
pub proof fn lemma_run_step(config: ConfigView, run: Run, at: int)
    requires
        is_run(config, run),
        0 <= at < run.events.len(),
    ensures
        is_sound_step(
            config,
            run.ops[at],
            run.actions[at],
            run.events[at],
            (run.ops[at + 1], run.actions[at + 1]),
        ),
{
    lemma_run(config, run, at);
    lemma_sound_step(
        config,
        run.preferred[at],
        run.ops[at],
        run.actions[at],
        run.events[at],
    );
}

/// Every operation that the controller starts, starts a run.
pub proof fn law_starts(
    config: ConfigView,
    input: Seq<char>,
    requested: Option<Seq<char>>,
    new_tab: bool,
    selector: Option<Seq<char>>,
    text: Option<Seq<char>>,
    timeout_ms: u64,
    task: TaskView,
)
    ensures
        visiting(config, input, requested, new_tab) matches Ok(next) ==> is_start(config, next),
        at_element(
            selector,
            text,
            connecting(TaskOf::Click { selector, text }, requested),
        ) matches Ok(next) ==> is_start(config, next),
        at_element(
            selector,
            text,
            connecting(TaskOf::WaitFor { selector, text, timeout_ms }, requested),
        ) matches Ok(next) ==> is_start(config, next),
        at_element(
            selector,
            text,
            preparing(TaskOf::Download { selector, text, timeout_ms }, requested),
        ) matches Ok(next) ==> is_start(config, next),
        task is Screenshot ==> is_start(config, preparing(task, requested)),
        task is Launch || task is Status || task is ListTabs || task is Snapshot
            || task is MoveCursor || task is TypeText || task is SelectOption || task is SetChecked
            || task is Scroll ==> is_start(config, connecting(task, requested)),
{
}

/// Navigation is limited to the allowed hosts, and so are the sources of
/// downloads: whatever the browser answers, no run opens a page, or lets a
/// download through, whose URL the policy does not allow.
pub proof fn law_navigation_is_policed(config: ConfigView, run: Run, at: int)
    requires
        is_run(config, run),
        0 <= at < run.actions.len(),
    ensures
        run.actions[at] matches ActionOf::Send(
            CallOf::Cdp { command: CommandOf::Navigate(href), .. },
        ) ==> is_allowed(config.allowed_hosts, href),
        run.actions[at] matches ActionOf::Send(CallOf::AllowDownload { url, .. }) ==> validated(
            config.allowed_hosts,
            url,
        ) is Ok,
{
    lemma_run(config, run, at);
}

/// The button goes down only where the visible cursor has come to: before it,
/// the backend moves the cursor to the point, and the page is told.
pub proof fn law_cursor_is_visible(
    config: ConfigView,
    run: Run,
    at: int,
    tab: u64,
    x: NumberView,
    y: NumberView,
)
    requires
        is_run(config, run),
        0 <= at < run.actions.len(),
        run.actions[at] == ActionView::Send(
            CallOf::Cdp { tab, command: CommandOf::MousePressed { x, y } },
        ),
    ensures
        at >= 2,
        run.actions[at - 1] == ActionView::Send(
            CallOf::Cdp { tab, command: CommandOf::MouseMoved { x, y } },
        ),
        run.actions[at - 2] == ActionView::Send(CallOf::MoveMouse { tab, x, y }),
{
    lemma_run(config, run, at);
    assert(run.ops[at].stage is Pressing);
    lemma_run_step(config, run, at - 1);
    lemma_run(config, run, at - 1);
    assert(run.ops[at - 1].stage is Hovering);
    lemma_run_step(config, run, at - 2);
    lemma_run(config, run, at - 2);
}

/// What was pressed is released at the same point next, unless the backend
/// fails.
pub proof fn law_press_is_released(
    config: ConfigView,
    run: Run,
    at: int,
    tab: u64,
    x: NumberView,
    y: NumberView,
)
    requires
        is_run(config, run),
        0 <= at < run.events.len(),
        run.actions[at] == ActionView::Send(
            CallOf::Cdp { tab, command: CommandOf::MousePressed { x, y } },
        ),
        run.events[at] matches EventView::Reply(Ok(_)),
    ensures
        run.actions[at + 1] == ActionView::Send(
            CallOf::Cdp { tab, command: CommandOf::MouseReleased { x, y } },
        ),
{
    lemma_run(config, run, at);
    assert(run.ops[at].stage is Pressing);
}

/// A response goes on only after its download was allowed: the step before
/// allows a URL that the policy allows.
pub proof fn law_response_waits_for_policy(
    config: ConfigView,
    run: Run,
    at: int,
    tab: u64,
    id: Seq<char>,
)
    requires
        is_run(config, run),
        0 <= at < run.actions.len(),
        run.actions[at] == ActionView::Send(
            CallOf::Cdp { tab, command: CommandOf::ContinueResponse(id) },
        ),
    ensures
        at >= 1,
        run.actions[at - 1] matches ActionOf::Send(CallOf::AllowDownload { tab: own, url }) && own
            == tab && validated(config.allowed_hosts, url) is Ok,
        run.events[at - 1] matches EventView::Reply(Ok(_)),
{
    lemma_run(config, run, at);
    assert(run.ops[at].stage is Continuing);
    lemma_run_step(config, run, at - 1);
    lemma_run(config, run, at - 1);
}

/// Where the work on a tab has begun, the tab was attached.
proof fn lemma_attached(config: ConfigView, run: Run, at: int) -> (before: int)
    requires
        is_run(config, run),
        0 <= at < run.ops.len(),
        is_at_work(run.ops[at].stage),
    ensures
        0 <= before < at,
        run.actions[before] == ActionView::Send(CallOf::Attach(run.ops[at].tab)),
        run.events[before] matches EventView::Reply(Ok(_)),
    decreases at,
{
    lemma_run_step(config, run, at - 1);
    lemma_run(config, run, at - 1);
    if is_at_work(run.ops[at - 1].stage) {
        lemma_attached(config, run, at - 1)
    } else {
        at - 1
    }
}

/// Nothing is sent to a tab before it was attached.
pub proof fn law_tab_is_attached_first(config: ConfigView, run: Run, at: int, tab: u64)
    requires
        is_run(config, run),
        0 <= at < run.actions.len(),
        run.actions[at] matches ActionOf::Send(call) && match call {
            CallOf::Cdp { tab: own, .. } => own == tab,
            CallOf::MoveMouse { tab: own, .. } => own == tab,
            CallOf::AllowDownload { tab: own, .. } => own == tab,
            _ => false,
        },
    ensures
        exists|before: int|
            0 <= before < at && (#[trigger] run.actions[before]) == ActionView::Send(
                CallOf::Attach(tab),
            ) && (run.events[before] matches EventView::Reply(Ok(_))),
{
    lemma_run(config, run, at);
    assert(run.ops[at].tab == tab);
    let before = lemma_attached(config, run, at);
    assert(run.actions[before] == ActionView::Send(CallOf::Attach(tab)));
}

/// Only exclusive operations move the cursor, press buttons or keys, or
/// scroll, so no two of them do at the same time.
pub proof fn law_input_is_exclusive(config: ConfigView, run: Run, at: int)
    requires
        is_run(config, run),
        0 <= at < run.actions.len(),
    ensures
        (run.actions[at] matches ActionOf::Send(call) && match call {
            CallOf::MoveMouse { .. } => true,
            CallOf::Cdp { command, .. } => command is MouseMoved || command is MousePressed
                || command is MouseReleased || command is Key || command is ScrollGesture,
            _ => false,
        }) ==> is_exclusive(run.ops[0].task),
{
    lemma_run(config, run, at);
}

/// An operation ends well only for good reason: of a checkable element, the
/// page shows the requested state at the end; of a wait, it says that the
/// element is there; of an option and a text without submission, that it was
/// taken; of a screenshot, the file was written.
pub proof fn law_success_is_earned(config: ConfigView, run: Run, at: int)
    requires
        is_run(config, run),
        0 <= at < run.actions.len(),
        run.actions[at] matches ActionOf::Finish(Ok(_)),
    ensures
        at >= 1,
        run.actions[at] matches ActionOf::Finish(Ok(outcome)) && is_earned(
            run.ops[at - 1],
            run.events[at - 1],
            outcome,
        ),
{
    if at > 0 {
        lemma_run_step(config, run, at - 1);
    }
}

proof fn lemma_evidence(config: ConfigView, run: Run, at: int, text: Seq<char>) -> (before: int)
    requires
        is_run(config, run),
        0 <= at < run.ops.len(),
        run.ops[at].result == Some(Ok::<Seq<char>, ErrorView>(text)),
    ensures
        0 <= before < at,
        is_evidence(config, run.ops[before], run.events[before], text),
    decreases at,
{
    lemma_run_step(config, run, at - 1);
    if is_evidence(config, run.ops[at - 1], run.events[at - 1], text) {
        at - 1
    } else {
        lemma_evidence(config, run, at - 1, text)
    }
}

/// A download is reported only after its completion was seen on disk. Whatever
/// the backend says, the text names a file of the directory for downloads, with
/// its size, that a listing showed: the file holds something, it was not there
/// when the operation began, or was another, and no download was under way.
pub proof fn law_download_is_on_disk(config: ConfigView, run: Run, at: int)
    requires
        is_run(config, run),
        0 <= at < run.actions.len(),
        run.ops[0].task is Download,
        run.actions[at] matches ActionOf::Finish(Ok(_)),
    ensures
        run.actions[at] matches ActionOf::Finish(Ok(OutcomeOf::Text(text))) && exists|before: int|
            2 <= before < at && #[trigger] is_new_file(config, run, before, text),
{
    law_success_is_earned(config, run, at);
    lemma_run(config, run, at - 1);
    let text = run.ops[at - 1].result->0->Ok_0;
    let before = lemma_evidence(config, run, at - 1, text);
    lemma_run(config, run, before);
    assert(run.ops[0].stage is Preparing);
    if before == 1 {
        let first = stepped(config, run.preferred[0], run.ops[0], run.events[0]);
        assert((run.ops[1], run.actions[1]) == first);
        assert(first.0.stage is Recording || first.0.stage is Ended);
    }
    law_files_are_listed_first(config, run, before);
    let listing = run.events[before]->Downloads_0->Ok_0;
    law_download_is_fresh(files_of(listing), run.ops[before].before);
    assert(is_new_file(config, run, before, text));
}

/// Whether a listing in a run shows the download that a text reports: of the
/// files that are fresh beside those that were listed when the operation began.
pub open spec fn is_new_file(config: ConfigView, run: Run, at: int, text: Seq<char>) -> bool {
    &&& run.events[1] matches EventView::Downloads(Ok(first))
    &&& run.events[at] matches EventView::Downloads(Ok(listing))
    &&& !is_partial(files_of(listing))
    &&& completed(files_of(listing), files_of(first)) matches Some(file)
    &&& is_fresh(files_of(listing), files_of(first), file.0)
    &&& file.1 == files_of(listing)[file.0].size
    &&& text == download_text(
        lossy(joined_path(config.download_dir, file.0)),
        file.1,
        run.ops[at].authorized,
    )
}

/// A source is called authorized only after a URL that the policy allows was
/// allowed as one.
pub proof fn law_authorized_is_allowed(config: ConfigView, run: Run, at: int)
    requires
        is_run(config, run),
        0 <= at < run.ops.len(),
        run.ops[at].authorized,
    ensures
        exists|before: int|
            0 <= before < at && ((#[trigger] run.actions[before]) matches ActionOf::Send(
                CallOf::AllowDownload { url, .. },
            ) && validated(config.allowed_hosts, url) is Ok),
    decreases at,
{
    lemma_run_step(config, run, at - 1);
    lemma_run(config, run, at - 1);
    if run.ops[at - 1].authorized {
        law_authorized_is_allowed(config, run, at - 1);
        let before = choose|before: int|
            0 <= before < at - 1 && ((#[trigger] run.actions[before]) matches ActionOf::Send(
                CallOf::AllowDownload { url, .. },
            ) && validated(config.allowed_hosts, url) is Ok);
        assert(0 <= before < at);
    } else {
        assert(run.ops[at - 1].stage is Continuing);
        law_response_waits_for_policy(
            config,
            run,
            at - 1,
            run.ops[at - 1].tab,
            run.ops[at - 1].held,
        );
        assert(run.actions[at - 2] matches ActionOf::Send(CallOf::AllowDownload { url, .. })
            && validated(config.allowed_hosts, url) is Ok);
    }
}

/// An operation that is answered in step does not go astray.
pub proof fn law_never_astray(config: ConfigView, run: Run, at: int)
    requires
        is_run(config, run),
        is_in_step(run),
        0 <= at < run.actions.len(),
        forall|i: int| 0 <= i < run.events.len() ==> !carries(
            #[trigger] run.events[i],
            ErrorOf::OutOfStep,
        ),
    ensures
        run.actions[at] != ActionView::Finish(Err(ErrorOf::OutOfStep)),
{
    if at > 0 {
        lemma_run_step(config, run, at - 1);
        assert(answers(run.events[at - 1], run.actions[at - 1]));
        assert(!carries(run.events[at - 1], ErrorOf::OutOfStep));
    }
}

/// What is over is over: once an operation has ended, it asks for nothing, and
/// whatever it is told then is out of step.
pub proof fn law_over_is_over(config: ConfigView, run: Run, at: int, later: int)
    requires
        is_run(config, run),
        0 <= at < later < run.actions.len(),
        run.actions[at] is Finish,
    ensures
        run.actions[later] == ActionView::Finish(Err(ErrorOf::OutOfStep)),
        !is_in_step(run),
    decreases later - at,
{
    lemma_run(config, run, at);
    assert(run.ops[at].stage is Ended);
    assert(!answers(run.events[at], run.actions[at]));
    if later == at + 1 {
        assert(run.events[at] == run.events[later - 1]);
    } else {
        lemma_run_step(config, run, at);
        law_over_is_over(config, run, at + 1, later);
    }
}

/// Waits are bounded: the first reading of the timer that is not below the
/// limit ends the wait. Of a download, the pause of responses is ended before
/// the failure is told.
pub proof fn law_waits_are_bounded(config: ConfigView, run: Run, at: int, elapsed: u64)
    requires
        is_run(config, run),
        0 <= at < run.events.len(),
        run.actions[at] is ReadTimer,
        run.events[at] == EventView::Elapsed(elapsed),
    ensures
        match run.ops[0].task {
            TaskOf::WaitFor { timeout_ms, .. } => elapsed >= timeout_ms ==> run.actions[at + 1]
                == ActionView::Finish(Err(ErrorOf::NotFound(timeout_ms))),
            TaskOf::Download { timeout_ms, .. } => elapsed >= timeout_ms ==> {
                &&& run.actions[at + 1] == ActionView::Send(
                    CallOf::Cdp { tab: run.ops[at].tab, command: CommandOf::FetchDisable },
                )
                &&& at + 1 < run.events.len() && run.events[at + 1] is Reply ==> (
                run.actions[at + 2] matches ActionOf::Finish(Err(e)) && e is NoDownload)
            },
            _ => elapsed >= READY_MS ==> run.actions[at + 1] == ActionView::Finish(
                Err(ErrorOf::NotReady(READY_MS)),
            ),
        },
{
    lemma_run(config, run, at);
    if at + 1 < run.events.len() {
        assert(run.events[at + 1] == run.events[at + 1]);
    }
}

/// A checkable element that has the requested state already is not clicked.
pub proof fn law_checked_is_left_alone(config: ConfigView, run: Run, at: int, checked: bool)
    requires
        is_run(config, run),
        0 <= at < run.actions.len(),
        run.ops[0].task matches TaskOf::SetChecked { checked: own, .. } && own == checked,
        run.actions[at] matches ActionOf::Send(
            CallOf::Cdp { command: CommandOf::MousePressed { .. }, .. },
        ),
    ensures
        at >= 3,
        run.ops[at - 3].stage is Checking,
        !shows_state(run.events[at - 3], checked),
{
    lemma_run(config, run, at);
    assert(run.ops[at].stage is Pressing);
    lemma_run_step(config, run, at - 1);
    lemma_run(config, run, at - 1);
    lemma_run_step(config, run, at - 2);
    lemma_run(config, run, at - 2);
    lemma_run_step(config, run, at - 3);
    lemma_run(config, run, at - 3);
}

/// A click is told of only once the button was pressed and released.
pub proof fn law_click_is_done(config: ConfigView, run: Run, at: int)
    requires
        is_run(config, run),
        0 <= at < run.actions.len(),
        run.ops[0].task is Click,
        run.actions[at] matches ActionOf::Finish(Ok(_)),
    ensures
        at >= 3,
        run.actions[at - 3] matches ActionOf::Send(
            CallOf::Cdp { command: CommandOf::MousePressed { .. }, .. },
        ),
        run.actions[at - 2] matches ActionOf::Send(
            CallOf::Cdp { command: CommandOf::MouseReleased { .. }, .. },
        ),
        run.events[at - 2] matches EventView::Reply(Ok(_)),
{
    law_success_is_earned(config, run, at);
    lemma_run(config, run, at - 1);
    lemma_run_step(config, run, at - 2);
    lemma_run(config, run, at - 2);
    lemma_run_step(config, run, at - 3);
    lemma_run(config, run, at - 3);
}

/// A page that was navigated to is told of only once it said that it is ready.
pub proof fn law_page_is_ready(config: ConfigView, run: Run, at: int)
    requires
        is_run(config, run),
        0 <= at < run.actions.len(),
        run.ops[0].task is OpenTab || run.ops[0].task is Navigate,
        run.actions[at] matches ActionOf::Finish(Ok(_)),
    ensures
        at >= 2,
        run.events[at - 2] matches EventView::Reply(r) && is_ready(r),
{
    lemma_run(config, run, at);
    law_success_is_earned(config, run, at);
    lemma_run(config, run, at - 1);
    lemma_run_step(config, run, at - 2);
    lemma_run(config, run, at - 2);
}

/// Files go where they belong: screenshots are written under a safe name in
/// their directory, and the browser is told of no directory for downloads but
/// the one that is configured.
pub proof fn law_files_stay_in_place(config: ConfigView, run: Run, at: int)
    requires
        is_run(config, run),
        0 <= at < run.actions.len(),
    ensures
        run.actions[at] matches ActionOf::Save { path, .. } ==> is_screenshot_path(config, path),
        run.actions[at] matches ActionOf::Send(
            CallOf::Cdp { command: CommandOf::DownloadBehavior(path), .. },
        ) ==> path == lossy(config.download_dir),
{
    lemma_run(config, run, at);
}

/// Responses flow again before a download is told of.
pub proof fn law_responses_flow_again(config: ConfigView, run: Run, at: int)
    requires
        is_run(config, run),
        0 <= at < run.actions.len(),
        run.ops[0].task is Download,
        run.actions[at] matches ActionOf::Finish(Ok(_)),
    ensures
        at >= 1,
        run.actions[at - 1] matches ActionOf::Send(
            CallOf::Cdp { command: CommandOf::FetchDisable, .. },
        ),
{
    law_success_is_earned(config, run, at);
    lemma_run(config, run, at - 1);
}

/// An operation that asks for no tab attaches the active one, whatever tab was
/// used last, and works on it from then on.
pub proof fn law_active_tab_is_attached(
    config: ConfigView,
    preferred: Option<u64>,
    op: OperationView,
    tabs: Seq<Tab>,
    at: int,
)
    requires
        op.stage is Resolving,
        op.requested is None,
        0 <= at < tabs.len(),
        tabs[at].active,
        forall|k: int| 0 <= k < at ==> !(#[trigger] tabs[k]).active,
    ensures
        stepped(config, preferred, op, EventView::Tabs(Ok(tabs))) == attaching(op, tabs[at].id),
{
    law_active_tab_is_used(tabs, at, preferred);
}

/// Where no tab is active, the one that was attached last is used again: an
/// operation that asks for no tab works on it, while it is open.
pub proof fn law_last_tab_is_used_again(
    config: ConfigView,
    preferred: Option<u64>,
    op: OperationView,
    event: EventView,
    later: OperationView,
    tabs: Seq<Tab>,
)
    requires
        op.stage is Attaching,
        event matches EventView::Reply(Ok(_)),
        later.stage is Resolving,
        later.requested is None,
        first_active(tabs) is None,
        is_open(tabs, op.tab),
    ensures
        stepped(
            config,
            preference(preferred, op, event),
            later,
            EventView::Tabs(Ok(tabs)),
        ).1 == ActionView::Send(CallOf::Attach(op.tab)),
{
}

/// The files that a download is told from are those that were there before
/// anything was done in the browser: they were listed second of all, before the
/// connection was made.
pub proof fn law_files_are_listed_first(config: ConfigView, run: Run, at: int)
    requires
        is_run(config, run),
        2 <= at < run.ops.len(),
        run.ops[0].task is Download,
        !(run.ops[at].stage is Ended),
    ensures
        run.events[1] matches EventView::Downloads(Ok(listing)) && run.ops[at].before == files_of(
            listing,
        ),
        !(run.ops[at].stage is Recording),
    decreases at,
{
    lemma_run_step(config, run, at - 1);
    lemma_run(config, run, at - 1);
    if at > 2 {
        lemma_run_step(config, run, at - 2);
        law_files_are_listed_first(config, run, at - 1);
    } else {
        assert(run.ops[0].stage is Preparing);
        lemma_run_step(config, run, 0);
        assert(run.events[0] == run.events[0]);
        assert(run.ops[1].stage is Recording || run.ops[1].stage is Ended);
        assert(run.events[1] == run.events[1]);
    }
}

/// Whether an event tells of no failure.
pub open spec fn succeeds(event: EventView) -> bool {
    match event {
        EventView::Connected(r) => r is Ok,
        EventView::Tabs(r) => r is Ok,
        EventView::Reply(r) => r is Ok,
        _ => true,
    }
}

/// Whether an event is the answer of a script that found an element, with a
/// point, in a state.
pub open spec fn shows_element(event: EventView, checked: bool) -> bool {
    &&& shows_state(event, checked)
    &&& event matches EventView::Reply(r)
    &&& evaluated(r) matches Ok(value)
    &&& says(value, "ok"@)
    &&& point_of(value) is Ok
}

/// Whether an action presses or releases the button.
pub open spec fn is_click(action: ActionView) -> bool {
    action matches ActionOf::Send(CallOf::Cdp { command, .. }) && (command is MousePressed
        || command is MouseReleased)
}

/// Whether a run chooses a tab among those that are listed to it.
pub open spec fn chooses(run: Run, tab: u64) -> bool {
    run.events.len() > 1 ==> {
        &&& run.events[1] matches EventView::Tabs(Ok(tabs))
        &&& wanted_tab(run.ops[0].requested) matches Ok(wanted)
        &&& chosen_tab(tabs, wanted, run.preferred[1]) == Some(tab)
    }
}

/// Whether the page answers every look at the checkable element alike.
pub open spec fn is_unchanged(run: Run, answer: EventView) -> bool {
    forall|i: int|
        0 <= i < run.events.len() && (run.ops[i].stage is Checking
            || run.ops[i].stage is Rechecking) ==> #[trigger] run.events[i] == answer
}

/// To set a checkable element once more, to the state that it has, changes
/// nothing: where a first operation ended well, and a second one with the same
/// task is led to the same tab, finds the page as the first one left it, and
/// every call succeeds, the second one ends with the same text, and only moves
/// the cursor.
pub proof fn law_checked_again(config: ConfigView, first: Run, at: int, second: Run, checked: bool)
    requires
        is_run(config, first),
        0 < at < first.actions.len(),
        first.ops[0].task matches TaskOf::SetChecked { checked: own, .. } && own == checked,
        first.actions[at] matches ActionOf::Finish(Ok(_)),
        shows_element(first.events[at - 1], checked),
        is_run(config, second),
        is_in_step(second),
        second.ops[0].task == first.ops[0].task,
        forall|i: int| 0 <= i < second.events.len() ==> succeeds(#[trigger] second.events[i]),
        chooses(second, first.ops[at].tab),
        is_unchanged(second, first.events[at - 1]),
    ensures
        second.events.len() <= 7,
        second.events.len() == 7 ==> second.actions[7] == first.actions[at],
        forall|i: int|
            0 <= i < second.actions.len() ==> !is_click(#[trigger] second.actions[i]) && (
            second.actions[i] is Finish ==> i == 7),
{
    law_success_is_earned(config, first, at);
    lemma_run(config, first, at - 1);
    let tab = first.ops[at].tab;
    assert(first.ops[at - 1].tab == tab);
    let answer = first.events[at - 1];
    let n = second.events.len();
    if n > 0 {
        assert(succeeds(second.events[0]) && answers(second.events[0], second.actions[0]));
        assert(second.ops[1].stage is Resolving && second.actions[1] is ListTabs);
    }
    if n > 1 {
        assert(answers(second.events[1], second.actions[1]));
        assert(second.ops[2].stage is Attaching && second.ops[2].tab == tab);
        assert(second.actions[2] == ActionView::Send(CallOf::Attach(tab)));
    }
    if n > 2 {
        assert(succeeds(second.events[2]) && answers(second.events[2], second.actions[2]));
        assert(second.ops[3].stage is Checking && second.ops[3].tab == tab);
    }
    if n > 3 {
        assert(second.events[3] == answer);
        assert(second.ops[4].stage is Moving && !second.ops[4].press);
        assert(second.ops[4].tab == tab && second.ops[4].point is Some);
    }
    if n > 4 {
        assert(succeeds(second.events[4]) && answers(second.events[4], second.actions[4]));
        assert(second.ops[5].stage is Hovering && !second.ops[5].press);
        assert(second.ops[5].tab == tab && second.ops[5].point is Some);
    }
    if n > 5 {
        assert(succeeds(second.events[5]) && answers(second.events[5], second.actions[5]));
        assert(second.ops[6].stage is Rechecking && second.ops[6].tab == tab);
    }
    if n > 6 {
        assert(second.events[6] == answer);
        assert(second.actions[7] == first.actions[at]);
    }
    if n > 7 {
        assert(answers(second.events[7], second.actions[7]));
    }
}

/// Where a run has come past the listing of some tabs, it works on the tab that
/// it chose among them, or it has ended.
proof fn lemma_chosen(config: ConfigView, run: Run, at: int, tabs: Seq<Tab>)
    requires
        is_run(config, run),
        3 <= at < run.ops.len(),
        run.ops[0].task is SetChecked,
        run.events[1] == EventView::Tabs(Ok(tabs)),
        tabs.len() > 0,
    ensures
        run.ops[at].stage is Ended || (is_at_work(run.ops[at].stage) && (wanted_tab(
            run.ops[0].requested,
        ) matches Ok(wanted) && chosen_tab(tabs, wanted, run.preferred[1]) == Some(
            run.ops[at].tab,
        ))),
    decreases at,
{
    lemma_run_step(config, run, at - 1);
    if at > 3 {
        lemma_chosen(config, run, at - 1, tabs);
    } else {
        let one = stepped(config, run.preferred[0], run.ops[0], run.events[0]);
        assert((run.ops[1], run.actions[1]) == one);
        assert(one.0.stage is Resolving || one.0.stage is Ended);
        let two = stepped(config, run.preferred[1], run.ops[1], run.events[1]);
        assert((run.ops[2], run.actions[2]) == two);
        if wanted_tab(run.ops[0].requested) is Ok {
            law_chosen_tab_is_open(
                tabs,
                wanted_tab(run.ops[0].requested)->Ok_0,
                run.preferred[1],
            );
        }
        assert(two.0.stage is Attaching || two.0.stage is Ended);
    }
}

/// Among the same tabs, the second operation is led to the same tab: so where
/// neither the tabs nor the page have changed, and the tab that the first one
/// attached is the one used last, the second one ends with the same text, and
/// only moves the cursor.
pub proof fn law_checked_again_unchanged(
    config: ConfigView,
    first: Run,
    at: int,
    second: Run,
    checked: bool,
)
    requires
        is_run(config, first),
        0 < at < first.actions.len(),
        first.ops[0].task matches TaskOf::SetChecked { checked: own, .. } && own == checked,
        first.actions[at] matches ActionOf::Finish(Ok(_)),
        shows_element(first.events[at - 1], checked),
        first.events[1] matches EventView::Tabs(Ok(tabs)) && tabs.len() > 0,
        is_run(config, second),
        is_in_step(second),
        second.ops[0].task == first.ops[0].task,
        second.ops[0].requested == first.ops[0].requested,
        forall|i: int| 0 <= i < second.events.len() ==> succeeds(#[trigger] second.events[i]),
        second.events.len() > 1 ==> second.events[1] == first.events[1] && second.preferred[1]
            == Some(first.ops[at].tab),
        is_unchanged(second, first.events[at - 1]),
    ensures
        second.events.len() <= 7,
        second.events.len() == 7 ==> second.actions[7] == first.actions[at],
        forall|i: int|
            0 <= i < second.actions.len() ==> !is_click(#[trigger] second.actions[i]) && (
            second.actions[i] is Finish ==> i == 7),
{
    law_success_is_earned(config, first, at);
    lemma_run_step(config, first, at - 1);
    lemma_past_attaching(config, first, at - 1);
    let tabs = first.events[1]->Tabs_0->Ok_0;
    lemma_chosen(config, first, at - 1, tabs);
    let wanted = wanted_tab(first.ops[0].requested)->Ok_0;
    law_choice_is_stable(tabs, wanted, first.preferred[1]);
    law_checked_again(config, first, at, second, checked);
}

/// The work on a tab does not begin before the third step.
proof fn lemma_past_attaching(config: ConfigView, run: Run, at: int)
    requires
        is_run(config, run),
        0 <= at < run.ops.len(),
        run.ops[0].task is SetChecked,
        is_at_work(run.ops[at].stage),
    ensures
        at >= 3,
{
    if 0 < at < 3 {
        let one = stepped(config, run.preferred[0], run.ops[0], run.events[0]);
        assert((run.ops[1], run.actions[1]) == one);
        assert(one.0.stage is Resolving || one.0.stage is Ended);
        if at == 2 {
            lemma_run_step(config, run, 1);
        }
    }
}

} // verus!
