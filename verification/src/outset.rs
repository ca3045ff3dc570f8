//! How operations set out: they connect, find their tab and open their page.
//! Each law follows an operation from what its caller gave.
use crate::config::{validated, ConfigView};
use crate::controller::{both, visiting};
use crate::course::{is_address, is_on_tab, opens_page};
use crate::deeds::{
    attached, commands, ends_with_error, ends_with_text, is_run_of, replied, returned, runs,
};
use crate::error::{ErrorOf, ErrorView};
use crate::flow::{is_exclusive, preference, stepped, wanted_tab, Next};
use crate::json::{pretty, JsonView, NumberView};
use crate::laws::{is_run, lemma_run, lemma_run_step, Run};
use crate::path::lossy;
use crate::protocol::{CallOf, CallView, CommandOf};
use crate::reply::evaluated;
use crate::report::{launch_text, status_text};
use crate::tabs::{
    first_active, is_open, law_active_tab_is_used, named_tab, tab_id_of, user_tab, Tab,
};
use crate::task::{ActionOf, ActionView, EventView, OutcomeOf, TaskOf, TaskView};
use vstd::prelude::*;

verus! {

broadcast use vstd::string::group_string_axioms;

/// What the caller gave stays as it is: the task, and the tab that was asked
/// for.
pub proof fn lemma_kept(
    config: ConfigView,
    run: Run,
    task: TaskView,
    requested: Option<Seq<char>>,
    at: int,
)
    requires
        is_run_of(config, run, task, requested),
        0 <= at < run.ops.len(),
    ensures
        run.ops[at].task == task,
        run.ops[at].requested == requested,
    decreases at,
{
    if at > 0 {
        lemma_kept(config, run, task, requested, at - 1);
        lemma_run_step(config, run, at - 1);
    }
}

/// An operation keeps the task and the tab that its caller asked for, from the
/// first step on. It sets out by connecting; before a screenshot or a download
/// the directories are made, and before a download the files that are there are
/// listed.
pub proof fn law_operation_sets_out(
    config: ConfigView,
    run: Run,
    task: TaskView,
    requested: Option<Seq<char>>,
    at: int,
)
    requires
        is_run_of(config, run, task, requested),
        0 <= at < run.ops.len(),
    ensures
        run.ops[at].task == task && run.ops[at].requested == requested,
        !(task is Screenshot || task is Download) ==> run.actions[0] is Connect,
        task is Screenshot || task is Download ==> run.actions[0] is PrepareDirs,
        (task is Screenshot || task is Download) && run.events.len() > 0 ==> (
        run.events[0] matches EventView::Prepared { download, screenshot } ==> if !download {
            ends_with_error(run, 1, ErrorOf::DownloadDir(lossy(config.download_dir)))
        } else if !screenshot {
            ends_with_error(run, 1, ErrorOf::ScreenshotDir(lossy(config.screenshot_dir)))
        } else if task is Screenshot {
            run.actions[1] is Connect
        } else {
            &&& run.actions[1] is ListDownloads
            &&& run.events.len() > 1 ==> (run.events[1] matches EventView::Downloads(r) ==> match r {
                Ok(_) => run.actions[2] is Connect,
                Err(words) => ends_with_error(run, 2, ErrorOf::Outside(words)),
            })
        }),
{
    lemma_kept(config, run, task, requested, at);
    if run.events.len() > 0 {
        assert(run.events[0] == run.events[0]);
        let one = stepped(config, run.preferred[0], run.ops[0], run.events[0]);
        assert((run.ops[1], run.actions[1]) == one);
        if run.events.len() > 1 {
            let two = stepped(config, run.preferred[1], run.ops[1], run.events[1]);
            assert((run.ops[2], run.actions[2]) == two);
        }
    }
}

/// Once connected, an operation asks the browser for what its task needs: a
/// status for what the browser says of itself, a page in a new tab for the tab,
/// all others for the tabs.
pub proof fn law_connected(
    config: ConfigView,
    run: Run,
    task: TaskView,
    requested: Option<Seq<char>>,
    at: int,
)
    requires
        is_run_of(config, run, task, requested),
        0 <= at < run.events.len(),
        run.actions[at] is Connect,
    ensures
        run.events[at] matches EventView::Connected(Err(e)) ==> ends_with_error(run, at + 1, e),
        run.events[at] matches EventView::Connected(Ok(_)) ==> run.actions[at + 1] == match task {
            TaskOf::Status => ActionView::Send(CallOf::GetInfo),
            TaskOf::OpenTab { .. } => ActionView::Send(CallOf::CreateTab),
            _ => ActionView::ListTabs,
        },
{
    lemma_kept(config, run, task, requested, at);
    lemma_run(config, run, at);
    assert(run.events[at] == run.events[at]);
}

/// Where the operation connected, it did so to this socket and with this turn.
proof fn lemma_connection(
    config: ConfigView,
    run: Run,
    connected: int,
    at: int,
    socket: Seq<u8>,
    turn: Seq<char>,
)
    requires
        is_run(config, run),
        0 <= connected < at < run.ops.len(),
        run.actions[connected] is Connect,
        run.events[connected] == EventView::Connected(Ok((socket, turn))),
    ensures
        run.ops[at].socket == socket,
        run.ops[at].turn == turn,
        !(run.ops[at].stage is Connecting || run.ops[at].stage is Preparing
            || run.ops[at].stage is Recording),
    decreases at,
{
    lemma_run(config, run, connected);
    lemma_run_step(config, run, at - 1);
    if at - 1 > connected {
        lemma_connection(config, run, connected, at - 1, socket, turn);
    }
}

/// A status tells what the browser says of itself, the connection that was
/// made and how many tabs there are.
pub proof fn law_status(
    config: ConfigView,
    run: Run,
    requested: Option<Seq<char>>,
    socket: Seq<u8>,
    turn: Seq<char>,
    info: JsonView,
    tabs: Seq<Tab>,
)
    requires
        is_run_of(config, run, TaskOf::Status, requested),
        run.events.len() >= 3,
        run.events[0] == EventView::Connected(Ok((socket, turn))),
        run.events[1] == EventView::Reply(Ok(info)),
        run.events[2] == EventView::Tabs(Ok(tabs)),
    ensures
        run.actions[0] is Connect,
        run.actions[1] == ActionView::Send(CallOf::GetInfo),
        run.actions[2] is ListTabs,
        ends_with_text(run, 3, status_text(config, info, socket, turn, tabs.len())),
{
    let one = stepped(config, run.preferred[0], run.ops[0], run.events[0]);
    assert((run.ops[1], run.actions[1]) == one);
    let two = stepped(config, run.preferred[1], run.ops[1], run.events[1]);
    assert((run.ops[2], run.actions[2]) == two);
    let three = stepped(config, run.preferred[2], run.ops[2], run.events[2]);
    assert((run.ops[3], run.actions[3]) == three);
}

/// The tabs that are told are those that the browser listed, all of them.
pub proof fn law_list_tabs(
    config: ConfigView,
    run: Run,
    requested: Option<Seq<char>>,
    tabs: Seq<Tab>,
)
    requires
        is_run_of(config, run, TaskOf::ListTabs, requested),
        run.events.len() >= 2,
        run.events[0] matches EventView::Connected(Ok(_)),
        run.events[1] == EventView::Tabs(Ok(tabs)),
    ensures
        run.actions[0] is Connect,
        run.actions[1] is ListTabs,
        run.actions[2] == ActionView::Finish(Ok(OutcomeOf::Tabs(tabs))),
{
    let one = stepped(config, run.preferred[0], run.ops[0], run.events[0]);
    assert((run.ops[1], run.actions[1]) == one);
    let two = stepped(config, run.preferred[1], run.ops[1], run.events[1]);
    assert((run.ops[2], run.actions[2]) == two);
}

/// Whether a run stands where the tabs were listed for it to choose one.
pub open spec fn has_listed(run: Run, at: int, tabs: Seq<Tab>) -> bool {
    &&& 0 <= at < run.events.len()
    &&& run.actions[at] is ListTabs
    &&& run.events[at] == EventView::Tabs(Ok(tabs))
}

/// Whether a run attaches a tab at a step.
pub open spec fn attaches(run: Run, at: int, tab: u64) -> bool {
    0 <= at < run.actions.len() && run.actions[at] == ActionView::Send(CallOf::Attach(tab))
}

/// Every operation on a tab attaches the tab that its caller asked for, where
/// it is among those that the browser lists; where the caller named it wrongly,
/// the operation ends with that.
pub proof fn law_requested_tab_is_attached(
    config: ConfigView,
    run: Run,
    task: TaskView,
    raw: Seq<char>,
    at: int,
    tabs: Seq<Tab>,
)
    requires
        is_run_of(config, run, task, Some(raw)),
        is_on_tab(task),
        has_listed(run, at, tabs),
    ensures
        named_tab(raw) matches Ok(id) ==> (is_open(tabs, id) ==> attaches(run, at + 1, id)),
        named_tab(raw) matches Err(e) ==> ends_with_error(run, at + 1, e),
{
    lemma_kept(config, run, task, Some(raw), at);
    lemma_run(config, run, at);
    assert(run.events[at] == run.events[at]);
}

/// Where the caller asked for no tab, the operation attaches the active one, or
/// else the one that was used last, or else the first.
pub proof fn law_usual_tab_is_attached(
    config: ConfigView,
    run: Run,
    task: TaskView,
    at: int,
    tabs: Seq<Tab>,
    active: int,
)
    requires
        is_run_of(config, run, task, None),
        is_on_tab(task),
        has_listed(run, at, tabs),
        tabs.len() > 0,
    ensures
        0 <= active < tabs.len() && tabs[active].active && (forall|k: int|
            0 <= k < active ==> !(#[trigger] tabs[k]).active) ==> attaches(
            run,
            at + 1,
            tabs[active].id,
        ),
        (forall|k: int| 0 <= k < tabs.len() ==> !(#[trigger] tabs[k]).active) ==> attaches(
            run,
            at + 1,
            match run.preferred[at] {
                Some(id) if is_open(tabs, id) => id,
                _ => tabs[0].id,
            },
        ),
{
    lemma_kept(config, run, task, None, at);
    lemma_run(config, run, at);
    assert(run.events[at] == run.events[at]);
    if 0 <= active < tabs.len() && tabs[active].active && (forall|k: int|
        0 <= k < active ==> !(#[trigger] tabs[k]).active) {
        law_active_tab_is_used(tabs, active, run.preferred[at]);
    }
    if forall|k: int| 0 <= k < tabs.len() ==> !(#[trigger] tabs[k]).active {
        lemma_none_active(tabs);
    }
}

proof fn lemma_none_active(tabs: Seq<Tab>)
    requires
        forall|k: int| 0 <= k < tabs.len() ==> !(#[trigger] tabs[k]).active,
    ensures
        first_active(tabs) is None,
    decreases tabs.len(),
{
    if tabs.len() > 0 {
        let rest = tabs.drop_first();
        assert forall|k: int| 0 <= k < rest.len() implies !(#[trigger] rest[k]).active by {
            assert(rest[k] == tabs[k + 1]);
        }
        assert(!tabs[0].active);
        lemma_none_active(rest);
    }
}

/// In the place of a tab that is no longer open, the operation attaches the one
/// that was used last, while it is open, or else the active one, or else the
/// first.
pub proof fn law_lost_tab_is_replaced(
    config: ConfigView,
    run: Run,
    task: TaskView,
    raw: Seq<char>,
    at: int,
    tabs: Seq<Tab>,
    active: int,
)
    requires
        is_run_of(config, run, task, Some(raw)),
        is_on_tab(task),
        has_listed(run, at, tabs),
        named_tab(raw) matches Ok(id) && !is_open(tabs, id),
        tabs.len() > 0,
    ensures
        run.preferred[at] matches Some(used) ==> (is_open(tabs, used) ==> attaches(
            run,
            at + 1,
            used,
        )),
        (run.preferred[at] matches Some(used) ==> !is_open(tabs, used)) && 0 <= active < tabs.len()
            && tabs[active].active && (forall|k: int|
            0 <= k < active ==> !(#[trigger] tabs[k]).active) ==> attaches(
            run,
            at + 1,
            tabs[active].id,
        ),
        (run.preferred[at] matches Some(used) ==> !is_open(tabs, used)) && (forall|k: int|
            0 <= k < tabs.len() ==> !(#[trigger] tabs[k]).active) ==> attaches(
            run,
            at + 1,
            tabs[0].id,
        ),
{
    lemma_kept(config, run, task, Some(raw), at);
    lemma_run(config, run, at);
    assert(run.events[at] == run.events[at]);
    if 0 <= active < tabs.len() && tabs[active].active && (forall|k: int|
        0 <= k < active ==> !(#[trigger] tabs[k]).active) {
        law_active_tab_is_used(tabs, active, None);
    }
    if forall|k: int| 0 <= k < tabs.len() ==> !(#[trigger] tabs[k]).active {
        lemma_none_active(tabs);
    }
}

/// The tab that was attached is the one that is preferred from then on, and so
/// is a tab that was made for a page; nothing else changes the preference.
#[verifier::rlimit(40)]
pub proof fn law_attached_tab_is_preferred(
    config: ConfigView,
    run: Run,
    task: TaskView,
    requested: Option<Seq<char>>,
    at: int,
    tab: u64,
    before: Option<u64>,
)
    requires
        is_run_of(config, run, task, requested),
        0 <= at < run.events.len(),
    ensures
        is_on_tab(task) && attached(run, at, tab) ==> preference(
            before,
            run.ops[at],
            run.events[at],
        ) == Some(tab),
        task is OpenTab && attaches(run, at + 1, tab) ==> preference(
            before,
            run.ops[at],
            run.events[at],
        ) == Some(tab),
        !(is_on_tab(task) && replied(run, at) && (run.actions[at] matches ActionOf::Send(
            CallOf::Attach(_),
        ))) && !(task is OpenTab && run.actions[at] == ActionView::Send(CallOf::CreateTab))
            ==> preference(before, run.ops[at], run.events[at]) == before,
{
    lemma_kept(config, run, task, requested, at);
    lemma_run(config, run, at);
    assert(run.events[at] == run.events[at]);
}

/// Operations that neither move the cursor nor press anything may run beside
/// others.
pub proof fn law_looking_is_shared(task: TaskView)
    ensures
        task is Launch || task is Status || task is ListTabs || task is OpenTab || task is Navigate
            || task is Snapshot || task is WaitFor || task is Screenshot ==> !is_exclusive(task),
{
}

/// Where the browser lists no tab, the operation takes over one of the user's,
/// or else makes one, and attaches it.
pub proof fn law_tab_is_taken_over(
    config: ConfigView,
    run: Run,
    task: TaskView,
    requested: Option<Seq<char>>,
    at: int,
)
    requires
        is_run_of(config, run, task, requested),
        is_on_tab(task),
        0 <= at < run.events.len(),
    ensures
        has_listed(run, at, Seq::empty()) && wanted_tab(requested) is Ok ==> run.actions[at + 1]
            == ActionView::Send(CallOf::GetUserTabs),
        run.actions[at] == ActionView::Send(CallOf::GetUserTabs) ==> (
        run.events[at] matches EventView::Reply(r) ==> run.actions[at + 1] == ActionView::Send(
            match r {
                Ok(accounts) if user_tab(accounts) is Some => CallOf::ClaimUserTab(
                    user_tab(accounts)->0,
                ),
                _ => CallOf::CreateTab,
            },
        )),
        run.actions[at] matches ActionOf::Send(CallOf::ClaimUserTab(id)) ==> (replied(run, at)
            ==> attaches(run, at + 1, id)),
{
    lemma_kept(config, run, task, requested, at);
    lemma_run(config, run, at);
    assert(run.events[at] == run.events[at]);
}

/// A tab that was made is attached, under the id that the browser gives it.
pub proof fn law_new_tab_is_attached(
    config: ConfigView,
    run: Run,
    task: TaskView,
    requested: Option<Seq<char>>,
    at: int,
    created: JsonView,
)
    requires
        is_run_of(config, run, task, requested),
        0 <= at < run.events.len(),
        run.actions[at] == ActionView::Send(CallOf::CreateTab),
        run.events[at] == EventView::Reply(Ok(created)),
    ensures
        tab_id_of(created) matches Some(id) ==> attaches(run, at + 1, id),
        tab_id_of(created) is None ==> ends_with_error(run, at + 1, ErrorOf::NoTabId),
{
    lemma_kept(config, run, task, requested, at);
    lemma_run(config, run, at);
    assert(run.events[at] == run.events[at]);
}

/// In the attached tab the page of the caller's address is opened, and asked
/// until it is ready.
#[verifier::rlimit(40)]
pub proof fn law_page_is_opened(
    config: ConfigView,
    run: Run,
    task: TaskView,
    requested: Option<Seq<char>>,
    at: int,
    tab: u64,
    href: Seq<char>,
)
    requires
        is_run_of(config, run, task, requested),
        attached(run, at, tab),
        is_address(config, task, href),
    ensures
        commands(run, at + 1, tab, CommandOf::Navigate(href)),
        replied(run, at + 1) ==> run.actions[at + 2] is StartTimer,
        replied(run, at + 1) && at + 2 < run.events.len() && run.events[at + 2] is Started ==> runs(
            run,
            at + 3,
            tab,
            "document.readyState"@,
        ),
{
    lemma_kept(config, run, task, requested, at);
    lemma_run(config, run, at);
    assert(run.events[at] == run.events[at]);
    if at + 1 < run.events.len() {
        assert(run.events[at + 1] == run.events[at + 1]);
    }
    if at + 2 < run.events.len() {
        assert(run.events[at + 2] == run.events[at + 2]);
    }
}

/// A launch whose address the policy does not allow opens nothing and says so.
pub proof fn law_launch_is_policed(
    config: ConfigView,
    run: Run,
    url: Seq<char>,
    requested: Option<Seq<char>>,
    at: int,
    tab: u64,
    e: ErrorView,
)
    requires
        is_run_of(config, run, TaskOf::Launch { url: Some(url) }, requested),
        attached(run, at, tab),
        validated(config.allowed_hosts, url) matches Err(own) && own == e,
    ensures
        ends_with_error(run, at + 1, e),
{
    lemma_kept(config, run, TaskOf::Launch { url: Some(url) }, requested, at);
    lemma_run(config, run, at);
    assert(run.events[at] == run.events[at]);
}

/// A page that says "complete" is ready; any other is asked again a moment
/// later, until the time is up.
#[verifier::rlimit(40)]
pub proof fn law_page_is_awaited(
    config: ConfigView,
    run: Run,
    task: TaskView,
    requested: Option<Seq<char>>,
    at: int,
    tab: u64,
)
    requires
        is_run_of(config, run, task, requested),
        opens_page(task),
        0 <= at < run.events.len(),
    ensures
        runs(run, at, tab, "document.readyState"@) && (run.events[at] is Reply) ==> if returned(
            run,
            at,
            JsonView::Text("complete"@),
        ) {
            if task is Launch {
                run.actions[at + 1] is PrepareDirs
            } else {
                runs(run, at + 1, tab, identity_script())
            }
        } else {
            run.actions[at + 1] is ReadTimer
        },
        run.actions[at] is ReadTimer ==> (run.events[at] matches EventView::Elapsed(ms) ==> if ms
            < 20_000 {
            &&& run.actions[at + 1] == ActionView::Pause(200)
            &&& at + 1 < run.events.len() && run.events[at + 1] is Paused ==> runs(
                run,
                at + 2,
                run.ops[at].tab,
                "document.readyState"@,
            )
        } else {
            ends_with_error(run, at + 1, ErrorOf::NotReady(20_000))
        }),
{
    lemma_kept(config, run, task, requested, at);
    lemma_run(config, run, at);
    assert(run.events[at] == run.events[at]);
    if at + 1 < run.events.len() {
        assert(run.events[at + 1] == run.events[at + 1]);
    }
    lemma_scripts_differ();
}

/// The script by which a page tells its URL and title.
pub open spec fn identity_script() -> Seq<char> {
    "({url: location.href, title: document.title})"@
}

/// A page that was opened in a tab is told as it tells itself; a launch tells
/// it with the connection that was made.
pub proof fn law_page_is_told(
    config: ConfigView,
    run: Run,
    task: TaskView,
    requested: Option<Seq<char>>,
    connected: int,
    socket: Seq<u8>,
    turn: Seq<char>,
    at: int,
    tab: u64,
    identity: JsonView,
)
    requires
        is_run_of(config, run, task, requested),
        opens_page(task),
        0 <= connected < at,
        run.actions[connected] is Connect,
        run.events[connected] == EventView::Connected(Ok((socket, turn))),
        runs(run, at, tab, identity_script()),
        returned(run, at, identity),
    ensures
        ends_with_text(
            run,
            at + 1,
            if task is Launch {
                launch_text(config, socket, tab, identity)
            } else {
                pretty(identity)
            },
        ),
{
    lemma_kept(config, run, task, requested, at);
    lemma_run(config, run, at);
    lemma_connection(config, run, connected, at, socket, turn);
    assert(run.events[at] == run.events[at]);
    lemma_scripts_differ();
}

/// A launch makes the directories, tells the browser where downloads go, if it
/// can, and asks the page who it is; one without an address begins with that,
/// on the tab as it is.
#[verifier::rlimit(40)]
pub proof fn law_launch(
    config: ConfigView,
    run: Run,
    url: Option<Seq<char>>,
    requested: Option<Seq<char>>,
    at: int,
    tab: u64,
)
    requires
        is_run_of(config, run, TaskOf::Launch { url }, requested),
        0 <= at < run.events.len(),
    ensures
        url is None && attached(run, at, tab) ==> run.actions[at + 1] is PrepareDirs,
        run.actions[at] is PrepareDirs ==> (
        run.events[at] matches EventView::Prepared { download, screenshot } ==> if download
            && screenshot {
            &&& commands(
                run,
                at + 1,
                run.ops[at].tab,
                CommandOf::DownloadBehavior(lossy(config.download_dir)),
            )
            &&& at + 1 < run.events.len() && run.events[at + 1] is Reply ==> runs(
                run,
                at + 2,
                run.ops[at].tab,
                identity_script(),
            )
        } else {
            runs(run, at + 1, run.ops[at].tab, identity_script())
        }),
{
    lemma_kept(config, run, TaskOf::Launch { url }, requested, at);
    lemma_run(config, run, at);
    assert(run.events[at] == run.events[at]);
    if at + 1 < run.events.len() {
        assert(run.events[at + 1] == run.events[at + 1]);
    }
}

/// Whether an operation goes on though a call fails: with a tab of its own
/// where it cannot have one of the user's; with downloads where the browser
/// puts them; with the end of a download; and with a page that cannot say yet
/// whether it is ready.
pub open spec fn may_fail(call: CallView) -> bool {
    match call {
        CallOf::GetUserTabs => true,
        CallOf::Cdp { command: CommandOf::DownloadBehavior(_), .. } => true,
        CallOf::Cdp { command: CommandOf::FetchDisable, .. } => true,
        CallOf::Cdp { command: CommandOf::Evaluate(script), .. } => script
            == "document.readyState"@,
        _ => false,
    }
}

/// What the browser refuses, the caller is told in its words: any call that
/// fails ends the operation with the error of the call, and so does a script
/// that ends in an exception, but for those that the operation can do without.
#[verifier::rlimit(40)]
pub proof fn law_refusal_is_told(config: ConfigView, run: Run, at: int)
    requires
        is_run(config, run),
        0 <= at < run.events.len(),
    ensures
        run.actions[at] matches ActionOf::Send(call) ==> (!may_fail(call) ==> (
        run.events[at] matches EventView::Reply(Err(e)) ==> ends_with_error(run, at + 1, e))),
        run.actions[at] matches ActionOf::Send(
            CallOf::Cdp { command: CommandOf::Evaluate(script), .. },
        ) ==> (script != "document.readyState"@ ==> (run.events[at] matches EventView::Reply(r)
            ==> (evaluated(r) matches Err(e) ==> ends_with_error(run, at + 1, e)))),
        run.actions[at] is ListTabs ==> (run.events[at] matches EventView::Tabs(Err(e))
            ==> ends_with_error(run, at + 1, e)),
        run.actions[at] is NextEvent ==> (run.events[at] matches EventView::Backend(Err(e))
            ==> ends_with_error(run, at + 1, e)),
{
    lemma_run(config, run, at);
    assert(run.events[at] == run.events[at]);
}

/// Asking whether a page is ready is not asking who it is.
proof fn lemma_scripts_differ()
    ensures
        identity_script() != "document.readyState"@,
{
    reveal_strlit("document.readyState");
    reveal_strlit("({url: location.href, title: document.title})");
    assert(identity_script().len() != "document.readyState"@.len());
}

/// A page is opened only where its URL is allowed, in a new tab where the caller
/// asked for one and otherwise in the tab of the caller's choice, at the address
/// that was judged; a point needs both of its coordinates, each in its place.
pub proof fn law_caller_is_obeyed(
    config: ConfigView,
    input: Seq<char>,
    requested: Option<Seq<char>>,
    new_tab: bool,
    x: NumberView,
    y: NumberView,
)
    ensures
        validated(config.allowed_hosts, input) matches Err(e) ==> visiting(
            config,
            input,
            requested,
            new_tab,
        ) == Err::<Next, ErrorView>(e),
        validated(config.allowed_hosts, input) matches Ok(parts) ==> (visiting(
            config,
            input,
            requested,
            new_tab,
        ) matches Ok(next) && next.0.requested == requested && next.1 is Connect && (if new_tab {
            next.0.task == TaskOf::<Seq<char>, NumberView>::OpenTab { href: parts.href }
        } else {
            next.0.task == TaskOf::<Seq<char>, NumberView>::Navigate { href: parts.href }
        })),
        both(Some(x), Some(y)) == Ok::<Option<(NumberView, NumberView)>, ErrorView>(Some((x, y))),
        both(None, None) == Ok::<Option<(NumberView, NumberView)>, ErrorView>(None),
        both(Some(x), None) == Err::<Option<(NumberView, NumberView)>, ErrorView>(
            ErrorOf::HalfPoint,
        ),
        both(None, Some(y)) == Err::<Option<(NumberView, NumberView)>, ErrorView>(
            ErrorOf::HalfPoint,
        ),
{
}

} // verus!
