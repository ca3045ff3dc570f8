//! What operations do: each law follows an operation from what its caller gave
//! to what is sent, step by step, and to what the caller is told.
use crate::config::ConfigView;
use crate::course::{carries, enter};
use crate::error::{ErrorOf, ErrorView};
use crate::flow::{connecting, preparing, stepped, OperationView};
use crate::json::{as_flag, field, pretty, JsonView, NumberView};
use crate::laws::{is_run, lemma_run, lemma_run_step, Run};
use crate::protocol::{CallOf, CommandOf, CommandView};
use crate::reply::{evaluated, point_of, says};
use crate::report::{
    checked_text, click_text, cursor_text, scroll_text, select_text, type_text_done,
};
use crate::script::{
    checked_script, find_select_script, locate_script, one_locator, select_script, snapshot_script,
    type_script,
};
use crate::task::{ActionView, EventView, OutcomeOf, Stage, TaskOf, TaskView};
use vstd::prelude::*;

verus! {

broadcast use vstd::string::group_string_axioms;

/// Whether a run is one of a task, for the tab that the caller asked for.
pub open spec fn is_run_of(
    config: ConfigView,
    run: Run,
    task: TaskView,
    requested: Option<Seq<char>>,
) -> bool {
    &&& is_run(config, run)
    &&& (run.ops[0], run.actions[0]) == if task is Screenshot || task is Download {
        preparing(task, requested)
    } else {
        connecting(task, requested)
    }
}

/// Whether the call at a step succeeded.
pub open spec fn replied(run: Run, at: int) -> bool {
    0 <= at < run.events.len() && (run.events[at] matches EventView::Reply(Ok(_)))
}

/// Whether the calls of some steps succeeded.
pub open spec fn all_replied(run: Run, from: int, to: int) -> bool {
    forall|k: int| from <= k < to ==> #[trigger] replied(run, k)
}

/// Whether the script at a step returned a value.
pub open spec fn returned(run: Run, at: int, value: JsonView) -> bool {
    &&& 0 <= at < run.events.len()
    &&& run.events[at] matches EventView::Reply(r)
    &&& evaluated(r) == Ok::<JsonView, ErrorView>(value)
}

/// Whether the script at a step returned a value that says it found an element,
/// at a point.
pub open spec fn found(run: Run, at: int, value: JsonView, x: NumberView, y: NumberView) -> bool {
    &&& returned(run, at, value)
    &&& says(value, "ok"@)
    &&& point_of(value) == Ok::<(NumberView, NumberView), ErrorView>((x, y))
}

/// Whether a tab was attached at a step.
pub open spec fn attached(run: Run, at: int, tab: u64) -> bool {
    replied(run, at) && run.actions[at] == ActionView::Send(CallOf::Attach(tab))
}

/// Whether a command is sent to a tab at a step.
pub open spec fn commands(run: Run, at: int, tab: u64, command: CommandView) -> bool {
    0 <= at < run.actions.len() && run.actions[at] == ActionView::Send(CallOf::Cdp { tab, command })
}

/// Whether a tab is made to run a script at a step.
pub open spec fn runs(run: Run, at: int, tab: u64, script: Seq<char>) -> bool {
    commands(run, at, tab, CommandOf::Evaluate(script))
}

/// Whether a run ends at a step with a text.
pub open spec fn ends_with_text(run: Run, at: int, text: Seq<char>) -> bool {
    0 <= at < run.actions.len() && run.actions[at] == ActionView::Finish(Ok(OutcomeOf::Text(text)))
}

/// Whether a run ends at a step with an error.
pub open spec fn ends_with_error(run: Run, at: int, e: ErrorView) -> bool {
    0 <= at < run.actions.len() && run.actions[at] == ActionView::Finish(Err(e))
}

/// Whether the cursor goes to a point from a step on, by the backend and then
/// for the page.
pub open spec fn moves_to(run: Run, at: int, tab: u64, x: NumberView, y: NumberView) -> bool {
    &&& 0 <= at < run.actions.len()
    &&& run.actions[at] == ActionView::Send(CallOf::MoveMouse { tab, x, y })
    &&& commands(run, at + 1, tab, CommandOf::MouseMoved { x, y })
}

/// Whether the cursor goes to a point from a step on, and the button goes down
/// and comes up there.
pub open spec fn clicks_at(run: Run, at: int, tab: u64, x: NumberView, y: NumberView) -> bool {
    &&& moves_to(run, at, tab, x, y)
    &&& commands(run, at + 2, tab, CommandOf::MousePressed { x, y })
    &&& commands(run, at + 3, tab, CommandOf::MouseReleased { x, y })
}

/// What is known where a tab was attached for a task that looks for one.
proof fn lemma_attached_for(
    config: ConfigView,
    run: Run,
    task: TaskView,
    requested: Option<Seq<char>>,
    at: int,
    tab: u64,
)
    requires
        is_run_of(config, run, task, requested),
        attached(run, at, tab),
        !(task is OpenTab),
    ensures
        run.ops[at].stage is Attaching,
        run.ops[at].task == task,
        run.ops[at].tab == tab,
        (run.ops[at + 1], run.actions[at + 1]) == stepped(
            config,
            run.preferred[at],
            run.ops[at],
            run.events[at],
        ),
{
    lemma_run(config, run, at);
    assert(run.events[at] == run.events[at]);
}

/// The way of the cursor to a point.
proof fn lemma_moves(config: ConfigView, run: Run, at: int, tab: u64, x: NumberView, y: NumberView)
    requires
        is_run(config, run),
        0 <= at,
        at + 1 < run.events.len(),
        run.ops[at].stage is Moving,
        run.ops[at].tab == tab,
        run.ops[at].point == Some((x, y)),
        replied(run, at),
        replied(run, at + 1),
    ensures
        moves_to(run, at, tab, x, y),
        run.ops[at + 1] == (OperationView { stage: Stage::Hovering, ..run.ops[at] }),
        (run.ops[at + 2], run.actions[at + 2]) == stepped(
            config,
            run.preferred[at + 1],
            run.ops[at + 1],
            run.events[at + 1],
        ),
{
    lemma_run(config, run, at);
    assert(run.events[at] == run.events[at]);
    assert(run.events[at + 1] == run.events[at + 1]);
}

/// The way of the cursor to a click.
pub proof fn lemma_clicks(
    config: ConfigView,
    run: Run,
    at: int,
    tab: u64,
    x: NumberView,
    y: NumberView,
)
    requires
        is_run(config, run),
        0 <= at,
        at + 3 < run.events.len(),
        run.ops[at].stage is Moving,
        run.ops[at].press,
        run.ops[at].tab == tab,
        run.ops[at].point == Some((x, y)),
        all_replied(run, at, at + 4),
    ensures
        clicks_at(run, at, tab, x, y),
        run.ops[at + 3] == (OperationView { stage: Stage::Releasing, ..run.ops[at] }),
        (run.ops[at + 4], run.actions[at + 4]) == stepped(
            config,
            run.preferred[at + 3],
            run.ops[at + 3],
            run.events[at + 3],
        ),
{
    assert(replied(run, at));
    assert(replied(run, at + 1));
    lemma_moves(config, run, at, tab, x, y);
    assert(replied(run, at + 2));
    assert(run.events[at + 2] == run.events[at + 2]);
    assert(replied(run, at + 3));
    assert(run.events[at + 3] == run.events[at + 3]);
}

/// A snapshot is what the snapshot script of the attached tab returns.
pub proof fn law_snapshot(
    config: ConfigView,
    run: Run,
    requested: Option<Seq<char>>,
    at: int,
    tab: u64,
    value: JsonView,
)
    requires
        is_run_of(config, run, TaskOf::Snapshot, requested),
        attached(run, at, tab),
    ensures
        runs(run, at + 1, tab, snapshot_script(tab)),
        returned(run, at + 1, value) ==> ends_with_text(
            run,
            at + 2,
            pretty(value),
        ),
{
    lemma_attached_for(config, run, TaskOf::Snapshot, requested, at, tab);
    if at + 1 < run.events.len() {
        assert(run.events[at + 1] == run.events[at + 1]);
    }
}

/// The cursor is moved to the point that the caller gave, and the caller is
/// told so.
pub proof fn law_move_cursor(
    config: ConfigView,
    run: Run,
    requested: Option<Seq<char>>,
    at: int,
    tab: u64,
    x: NumberView,
    y: NumberView,
)
    requires
        is_run_of(config, run, TaskOf::MoveCursor { x, y }, requested),
        attached(run, at, tab),
        all_replied(run, at + 1, at + 3),
    ensures
        moves_to(run, at + 1, tab, x, y),
        ends_with_text(run, at + 3, cursor_text(x, y, tab)),
{
    let task = TaskOf::MoveCursor { x, y };
    lemma_attached_for(config, run, task, requested, at, tab);
    assert(replied(run, at + 1) && replied(run, at + 2));
    lemma_moves(config, run, at + 1, tab, x, y);
}

/// A click looks for the element by the selector and the text that the caller
/// gave, each as it was given, clicks at the point where the page found it, and
/// tells what was found.
#[verifier::rlimit(40)]
pub proof fn law_click(
    config: ConfigView,
    run: Run,
    selector: Option<Seq<char>>,
    text: Option<Seq<char>>,
    requested: Option<Seq<char>>,
    at: int,
    tab: u64,
    value: JsonView,
    x: NumberView,
    y: NumberView,
)
    requires
        is_run_of(config, run, TaskOf::Click { selector, text }, requested),
        attached(run, at, tab),
    ensures
        runs(run, at + 1, tab, locate_script(selector, text)),
        found(run, at + 1, value, x, y) && all_replied(run, at + 2, at + 6) ==> {
            &&& clicks_at(run, at + 2, tab, x, y)
            &&& run.actions[at + 6] == ActionView::Pause(500)
            &&& at + 6 < run.events.len() && run.events[at + 6] is Paused ==> ends_with_text(
                run,
                at + 7,
                click_text(value, tab),
            )
        },
{
    let task = TaskOf::Click { selector, text };
    lemma_attached_for(config, run, task, requested, at, tab);
    lemma_run(config, run, at);
    if found(run, at + 1, value, x, y) && all_replied(run, at + 2, at + 6) {
        assert(run.events[at + 1] == run.events[at + 1]);
        assert(replied(run, at + 5));
        lemma_clicks(config, run, at + 2, tab, x, y);
        if at + 6 < run.events.len() {
            assert(run.events[at + 6] == run.events[at + 6]);
        }
    }
}

/// Text is typed into the element of the caller's selector: it is clicked, and
/// the page enters the caller's text, in the place of the value or behind it as
/// the caller said; the enter key follows where the caller asked for it, and
/// only there.
#[verifier::rlimit(40)]
pub proof fn law_type_text(
    config: ConfigView,
    run: Run,
    selector: Seq<char>,
    text: Seq<char>,
    clear: bool,
    submit: bool,
    requested: Option<Seq<char>>,
    at: int,
    tab: u64,
    value: JsonView,
    x: NumberView,
    y: NumberView,
    entered: JsonView,
)
    requires
        is_run_of(config, run, TaskOf::TypeText { selector, text, clear, submit }, requested),
        selector.len() > 0,
        attached(run, at, tab),
    ensures
        runs(run, at + 1, tab, locate_script(Some(selector), None)),
        found(run, at + 1, value, x, y) && all_replied(run, at + 2, at + 6) ==> {
            &&& clicks_at(run, at + 2, tab, x, y)
            &&& runs(run, at + 6, tab, type_script(selector, text, clear))
            &&& returned(run, at + 6, entered) ==> if !says(entered, "ok"@) {
                ends_with_error(run, at + 7, ErrorOf::NotTyped { selector, reply: entered })
            } else if !submit {
                ends_with_text(run, at + 7, type_text_done(selector, text.len(), false))
            } else {
                &&& run.actions[at + 7] == ActionView::Pause(50)
                &&& at + 7 < run.events.len() && run.events[at + 7] is Paused && all_replied(
                    run,
                    at + 8,
                    at + 10,
                ) ==> {
                    &&& commands(run, at + 8, tab, enter("rawKeyDown"@))
                    &&& commands(run, at + 9, tab, enter("keyUp"@))
                    &&& ends_with_text(run, at + 10, type_text_done(selector, text.len(), true))
                }
            }
        },
{
    let task = TaskOf::TypeText { selector, text, clear, submit };
    lemma_attached_for(config, run, task, requested, at, tab);
    if found(run, at + 1, value, x, y) && all_replied(run, at + 2, at + 6) {
        assert(run.events[at + 1] == run.events[at + 1]);
        assert(replied(run, at + 5));
        lemma_clicks(config, run, at + 2, tab, x, y);
        if returned(run, at + 6, entered) {
            assert(run.events[at + 6] == run.events[at + 6]);
            if submit && says(entered, "ok"@) && at + 7 < run.events.len() && run.events[at
                + 7] is Paused && all_replied(run, at + 8, at + 10) {
                assert(run.events[at + 7] == run.events[at + 7]);
                assert(replied(run, at + 8) && replied(run, at + 9));
                assert(run.events[at + 8] == run.events[at + 8]);
                assert(run.events[at + 9] == run.events[at + 9]);
            }
        }
    }
}

/// An option is chosen of the select element at the caller's index among those
/// that the caller's selector matches: it is clicked, and the page chooses the
/// caller's option.
#[verifier::rlimit(40)]
pub proof fn law_select_option(
    config: ConfigView,
    run: Run,
    selector: Seq<char>,
    index: usize,
    option: Seq<char>,
    requested: Option<Seq<char>>,
    at: int,
    tab: u64,
    value: JsonView,
    x: NumberView,
    y: NumberView,
    chosen: JsonView,
)
    requires
        is_run_of(config, run, TaskOf::SelectOption { selector, index, option }, requested),
        attached(run, at, tab),
    ensures
        runs(run, at + 1, tab, find_select_script(selector, index as nat)),
        returned(run, at + 1, value) && !says(value, "ok"@) ==> ends_with_error(
            run,
            at + 2,
            ErrorOf::NoSelect(value),
        ),
        found(run, at + 1, value, x, y) && all_replied(run, at + 2, at + 6) ==> {
            &&& clicks_at(run, at + 2, tab, x, y)
            &&& runs(run, at + 6, tab, select_script(selector, index as nat, option))
            &&& returned(run, at + 6, chosen) ==> if says(chosen, "ok"@) {
                ends_with_text(run, at + 7, select_text(chosen, tab))
            } else {
                ends_with_error(run, at + 7, ErrorOf::NotSelected(chosen))
            }
        },
{
    let task = TaskOf::SelectOption { selector, index, option };
    lemma_attached_for(config, run, task, requested, at, tab);
    if returned(run, at + 1, value) {
        assert(run.events[at + 1] == run.events[at + 1]);
    }
    if found(run, at + 1, value, x, y) && all_replied(run, at + 2, at + 6) {
        assert(replied(run, at + 5));
        lemma_clicks(config, run, at + 2, tab, x, y);
        if returned(run, at + 6, chosen) {
            assert(run.events[at + 6] == run.events[at + 6]);
        }
    }
}

/// A checkable element is looked at by the caller's selector; where the page
/// finds none, the caller is told what the page says.
pub proof fn law_checkable_is_looked_at(
    config: ConfigView,
    run: Run,
    selector: Seq<char>,
    checked: bool,
    requested: Option<Seq<char>>,
    at: int,
    tab: u64,
    value: JsonView,
)
    requires
        is_run_of(config, run, TaskOf::SetChecked { selector, checked }, requested),
        attached(run, at, tab),
    ensures
        runs(run, at + 1, tab, checked_script(selector)),
        returned(run, at + 1, value) && !says(value, "ok"@) ==> ends_with_error(
            run,
            at + 2,
            ErrorOf::NotCheckable(value),
        ),
{
    let task = TaskOf::SetChecked { selector, checked };
    lemma_attached_for(config, run, task, requested, at, tab);
    if returned(run, at + 1, value) {
        assert(run.events[at + 1] == run.events[at + 1]);
    }
}

/// A checkable element that differs from what the caller asked for is clicked.
/// Then the page is asked again, and the caller is told the state that the page
/// shows, or that it is another.
#[verifier::rlimit(40)]
pub proof fn law_set_checked(
    config: ConfigView,
    run: Run,
    selector: Seq<char>,
    checked: bool,
    requested: Option<Seq<char>>,
    at: int,
    tab: u64,
    value: JsonView,
    x: NumberView,
    y: NumberView,
    after: JsonView,
)
    requires
        is_run_of(config, run, TaskOf::SetChecked { selector, checked }, requested),
        attached(run, at, tab),
        found(run, at + 1, value, x, y),
        as_flag(field(value, "checked"@)) != Some(checked),
        all_replied(run, at + 2, at + 6),
    ensures
        clicks_at(run, at + 2, tab, x, y),
        run.actions[at + 6] == ActionView::Pause(100),
        at + 6 < run.events.len() && run.events[at + 6] is Paused ==> {
            &&& runs(run, at + 7, tab, checked_script(selector))
            &&& returned(run, at + 7, after) ==> tells_state(
                run,
                at + 8,
                selector,
                checked,
                tab,
                after,
            )
        },
{
    let task = TaskOf::SetChecked { selector, checked };
    lemma_attached_for(config, run, task, requested, at, tab);
    assert(run.events[at + 1] == run.events[at + 1]);
    assert(replied(run, at + 5));
    assert(run.ops[at + 2].stage is Moving);
    lemma_clicks(config, run, at + 2, tab, x, y);
    if at + 6 < run.events.len() {
        assert(run.events[at + 6] == run.events[at + 6]);
    }
    if at + 7 < run.events.len() {
        assert(run.events[at + 7] == run.events[at + 7]);
    }
}

/// A checkable element that agrees with what the caller asked for is only
/// pointed at, and then the page is asked again.
#[verifier::rlimit(40)]
pub proof fn law_agreeing_element_is_pointed_at(
    config: ConfigView,
    run: Run,
    selector: Seq<char>,
    checked: bool,
    requested: Option<Seq<char>>,
    at: int,
    tab: u64,
    value: JsonView,
    x: NumberView,
    y: NumberView,
    after: JsonView,
)
    requires
        is_run_of(config, run, TaskOf::SetChecked { selector, checked }, requested),
        attached(run, at, tab),
        found(run, at + 1, value, x, y),
        as_flag(field(value, "checked"@)) == Some(checked),
        all_replied(run, at + 2, at + 4),
    ensures
        moves_to(run, at + 2, tab, x, y),
        runs(run, at + 4, tab, checked_script(selector)),
        returned(run, at + 4, after) ==> tells_state(
            run,
            at + 5,
            selector,
            checked,
            tab,
            after,
        ),
{
    let task = TaskOf::SetChecked { selector, checked };
    lemma_attached_for(config, run, task, requested, at, tab);
    assert(run.events[at + 1] == run.events[at + 1]);
    assert(replied(run, at + 2) && replied(run, at + 3));
    assert(run.ops[at + 2].stage is Moving);
    lemma_moves(config, run, at + 2, tab, x, y);
    if at + 4 < run.events.len() {
        assert(run.events[at + 4] == run.events[at + 4]);
    }
}

/// Whether a run ends with the state that the page shows: the one that was
/// asked for, or the error that it is another.
pub open spec fn tells_state(
    run: Run,
    at: int,
    selector: Seq<char>,
    checked: bool,
    tab: u64,
    after: JsonView,
) -> bool {
    if as_flag(field(after, "checked"@)) == Some(checked) {
        ends_with_text(run, at, checked_text(checked, selector, tab))
    } else {
        ends_with_error(run, at, ErrorOf::NotChecked(after))
    }
}

/// From where the cursor is on its way, the page is scrolled at the point by
/// the negatives of the distances, both of them, and the caller is told the
/// distances.
pub open spec fn scrolls_at(
    run: Run,
    at: int,
    tab: u64,
    x: NumberView,
    y: NumberView,
    distance: (NumberView, NumberView),
    back: (NumberView, NumberView),
) -> bool {
    all_replied(run, at, at + 3) ==> {
        &&& moves_to(run, at, tab, x, y)
        &&& commands(
            run,
            at + 2,
            tab,
            CommandOf::ScrollGesture { x, y, dx: back.0, dy: back.1 },
        )
        &&& run.actions[at + 3] == ActionView::Pause(250)
        &&& at + 3 < run.events.len() && run.events[at + 3] is Paused ==> ends_with_text(
            run,
            at + 4,
            scroll_text(tab, x, y, distance.0, distance.1),
        )
    }
}

#[verifier::rlimit(40)]
proof fn lemma_scrolls(
    config: ConfigView,
    run: Run,
    at: int,
    tab: u64,
    x: NumberView,
    y: NumberView,
    distance: (NumberView, NumberView),
    back: (NumberView, NumberView),
)
    requires
        is_run(config, run),
        0 <= at < run.ops.len(),
        run.ops[at].stage is Moving,
        !run.ops[at].press,
        run.ops[at].tab == tab,
        run.ops[at].point == Some((x, y)),
        run.ops[at].task matches TaskOf::Scroll { dx, dy, back_x, back_y, .. } && (dx, dy)
            == distance && (back_x, back_y) == back,
    ensures
        scrolls_at(run, at, tab, x, y, distance, back),
{
    if all_replied(run, at, at + 3) {
        assert(replied(run, at) && replied(run, at + 1) && replied(run, at + 2));
        lemma_moves(config, run, at, tab, x, y);
        assert(run.events[at + 2] == run.events[at + 2]);
        if at + 3 < run.events.len() {
            assert(run.events[at + 3] == run.events[at + 3]);
        }
    }
}

/// The page is scrolled at the element of the caller's selector where there is
/// one, or else at the caller's point, or else in the middle of the viewport;
/// in every case by the caller's distances.
#[verifier::rlimit(40)]
pub proof fn law_scroll(
    config: ConfigView,
    run: Run,
    selector: Option<Seq<char>>,
    point: Option<(NumberView, NumberView)>,
    distance: (NumberView, NumberView),
    back: (NumberView, NumberView),
    requested: Option<Seq<char>>,
    at: int,
    tab: u64,
    value: JsonView,
    x: NumberView,
    y: NumberView,
)
    requires
        is_run_of(
            config,
            run,
            TaskOf::Scroll {
                selector,
                point,
                dx: distance.0,
                dy: distance.1,
                back_x: back.0,
                back_y: back.1,
            },
            requested,
        ),
        attached(run, at, tab),
        selector matches Some(s) ==> s.len() > 0,
    ensures
        selector matches Some(s) ==> {
            &&& runs(run, at + 1, tab, locate_script(selector, None))
            &&& found(run, at + 1, value, x, y) ==> scrolls_at(
                run,
                at + 2,
                tab,
                x,
                y,
                distance,
                back,
            )
        },
        selector is None ==> (point matches Some(p) ==> scrolls_at(
            run,
            at + 1,
            tab,
            p.0,
            p.1,
            distance,
            back,
        )),
        selector is None && point is None ==> {
            &&& commands(run, at + 1, tab, CommandOf::LayoutMetrics)
            &&& at + 2 < run.events.len() && run.actions[at + 2] is Halve && run.events[at + 2]
                == EventView::Halved(x, y) ==> scrolls_at(
                run,
                at + 3,
                tab,
                x,
                y,
                distance,
                back,
            )
        },
{
    let task = TaskOf::Scroll {
        selector,
        point,
        dx: distance.0,
        dy: distance.1,
        back_x: back.0,
        back_y: back.1,
    };
    lemma_attached_for(config, run, task, requested, at, tab);
    if at + 1 < run.events.len() {
        assert(run.events[at + 1] == run.events[at + 1]);
    }
    if at + 2 < run.events.len() {
        assert(run.events[at + 2] == run.events[at + 2]);
    }
    if selector is Some {
        if found(run, at + 1, value, x, y) {
            lemma_scrolls(config, run, at + 2, tab, x, y, distance, back);
        }
    } else if point is Some {
        let p = point->0;
        lemma_scrolls(config, run, at + 1, tab, p.0, p.1, distance, back);
    } else if at + 2 < run.events.len() && run.actions[at + 2] is Halve && run.events[at + 2]
        == EventView::Halved(x, y) {
        lemma_run(config, run, at + 2);
        lemma_run_step(config, run, at + 1);
        lemma_scrolls(config, run, at + 3, tab, x, y, distance, back);
    }
}

/// The middle of the viewport is that of its own width and height, or of the
/// usual ones where the browser does not tell them.
pub proof fn law_middle_of_viewport(
    config: ConfigView,
    run: Run,
    task: TaskView,
    requested: Option<Seq<char>>,
    at: int,
    tab: u64,
    metrics: JsonView,
)
    requires
        is_run_of(config, run, task, requested),
        commands(run, at, tab, CommandOf::LayoutMetrics),
        at < run.events.len(),
        run.events[at] == EventView::Reply(Ok(metrics)),
    ensures
        field(metrics, "cssVisualViewport"@) is None ==> ends_with_error(
            run,
            at + 1,
            ErrorOf::NoViewport,
        ),
        field(metrics, "cssVisualViewport"@) matches Some(viewport) ==> run.actions[at + 1]
            == ActionView::Halve(
            match field(viewport, "clientWidth"@) {
                Some(JsonView::Number(width)) => width,
                _ => NumberView::Unsigned(1280),
            },
            match field(viewport, "clientHeight"@) {
                Some(JsonView::Number(height)) => height,
                _ => NumberView::Unsigned(720),
            },
        ),
{
    lemma_run(config, run, at);
    assert(run.events[at] == run.events[at]);
}

/// Where the page finds no element to point at, the caller is told what the
/// page says: of every operation that looks for one by selector or text.
pub proof fn law_missing_element_is_told(
    config: ConfigView,
    run: Run,
    task: TaskView,
    requested: Option<Seq<char>>,
    at: int,
    value: JsonView,
)
    requires
        is_run_of(config, run, task, requested),
        run.ops[at].stage is Locating,
        returned(run, at, value),
    ensures
        !says(value, "ok"@) ==> ends_with_error(run, at + 1, ErrorOf::NotClickable(value)),
        says(value, "ok"@) ==> (point_of(value) matches Err(e) ==> ends_with_error(run, at + 1, e)),
{
    lemma_run(config, run, at);
    assert(run.events[at] == run.events[at]);
}

/// Whether a task comes with a locator that can be used: exactly one of a
/// selector and a text, and not an empty one, wherever it looks for an element
/// by them.
pub open spec fn has_locator(task: TaskView) -> bool {
    match task {
        TaskOf::Click { selector, text } => one_locator(selector, text),
        TaskOf::WaitFor { selector, text, .. } => one_locator(selector, text),
        TaskOf::Download { selector, text, .. } => one_locator(selector, text),
        TaskOf::TypeText { selector, .. } => selector.len() > 0,
        TaskOf::Scroll { selector: Some(selector), .. } => selector.len() > 0,
        _ => true,
    }
}

/// No operation whose caller gave a usable locator ends with the complaint that
/// there is none, unless the browser itself makes it.
#[verifier::rlimit(40)]
pub proof fn law_locator_is_used(
    config: ConfigView,
    run: Run,
    task: TaskView,
    requested: Option<Seq<char>>,
    at: int,
)
    requires
        is_run_of(config, run, task, requested),
        has_locator(task),
        0 <= at < run.events.len(),
        ends_with_error(run, at + 1, ErrorOf::Locator),
        !(run.ops[at].stage is Ended),
    ensures
        carries(run.events[at], ErrorOf::Locator),
{
    lemma_run(config, run, at);
    lemma_run_step(config, run, at);
    assert(run.events[at] == run.events[at]);
}

} // verus!
