//! What operations wait for: an element, a download, a screenshot on disk. Each
//! law follows an operation from what its caller gave.
use crate::config::{validated, ConfigView};
use crate::deeds::{
    all_replied, attached, clicks_at, commands, ends_with_error, ends_with_text, found, is_run_of,
    lemma_clicks, replied, returned, runs,
};
use crate::error::{ErrorOf, ErrorView};
use crate::files::{completed, files_of, png_name, ListedView};
use crate::json::{as_text, as_unsigned, field, pretty, then_field, JsonView, NumberView};
use crate::laws::{lemma_run, lemma_run_step, Run};
use crate::outset::lemma_kept;
use crate::path::{joined_path, lossy};
use crate::protocol::{CallOf, CommandOf};
use crate::reply::{captured, says};
use crate::report::{download_text, screenshot_text};
use crate::script::{locate_script, presence_script};
use crate::task::{ActionOf, ActionView, EventView, TaskOf, TaskView};
use vstd::prelude::*;
use vstd::utf8::encode_utf8;

verus! {

broadcast use vstd::string::group_string_axioms;

/// A wait starts the timer and asks the page for the element of the caller's
/// selector or text. Once the page says that it found it, the caller is told
/// what the page says; until then the page is asked again every moment, and
/// when the caller's time is up, the caller is told so.
#[verifier::rlimit(40)]
pub proof fn law_wait_for(
    config: ConfigView,
    run: Run,
    selector: Option<Seq<char>>,
    text: Option<Seq<char>>,
    timeout_ms: u64,
    requested: Option<Seq<char>>,
    at: int,
    tab: u64,
    value: JsonView,
)
    requires
        is_run_of(config, run, TaskOf::WaitFor { selector, text, timeout_ms }, requested),
        0 <= at < run.events.len(),
        run.ops[at].tab == tab,
    ensures
        attached(run, at, tab) ==> run.actions[at + 1] is StartTimer,
        run.actions[at] is StartTimer && run.events[at] is Started ==> runs(
            run,
            at + 1,
            tab,
            presence_script(selector, text),
        ),
        runs(run, at, tab, presence_script(selector, text)) && returned(run, at, value) ==> if says(
            value,
            "found"@,
        ) {
            ends_with_text(run, at + 1, pretty(value))
        } else {
            run.actions[at + 1] is ReadTimer
        },
        run.actions[at] is ReadTimer ==> (run.events[at] matches EventView::Elapsed(ms) ==> if ms
            < timeout_ms {
            &&& run.actions[at + 1] == ActionView::Pause(250)
            &&& at + 1 < run.events.len() && run.events[at + 1] is Paused ==> runs(
                run,
                at + 2,
                tab,
                presence_script(selector, text),
            )
        } else {
            ends_with_error(run, at + 1, ErrorOf::NotFound(timeout_ms))
        }),
{
    lemma_kept(config, run, TaskOf::WaitFor { selector, text, timeout_ms }, requested, at);
    lemma_run(config, run, at);
    assert(run.events[at] == run.events[at]);
    if at + 1 < run.events.len() {
        assert(run.events[at + 1] == run.events[at + 1]);
    }
}

/// A screenshot of the attached tab is written under the caller's name, made
/// safe, or under one of the time, into the directory for screenshots; the
/// bytes are those that the browser sent, and the caller is told where they are
/// and how many.
#[verifier::rlimit(40)]
pub proof fn law_screenshot(
    config: ConfigView,
    run: Run,
    filename: Option<Seq<char>>,
    requested: Option<Seq<char>>,
    at: int,
    tab: u64,
    answer: JsonView,
    image: Seq<u8>,
    now_ms: u128,
)
    requires
        is_run_of(config, run, TaskOf::Screenshot { filename }, requested),
        attached(run, at, tab),
        image.len() <= usize::MAX,
    ensures
        commands(run, at + 1, tab, CommandOf::CaptureScreenshot),
        at + 2 < run.events.len() && run.events[at + 1] == EventView::Reply(Ok(answer))
            && captured(answer) == Ok::<Seq<u8>, ErrorView>(image) && run.events[at + 2]
            == EventView::Clock(now_ms) ==> {
            let path = joined_path(
                config.screenshot_dir,
                encode_utf8(png_name(filename, now_ms as nat)),
            );
            &&& run.actions[at + 2] is ReadClock
            &&& run.actions[at + 3] == ActionView::Save { path, image }
            &&& at + 3 < run.events.len() && run.events[at + 3] == EventView::Saved(true)
                ==> ends_with_text(run, at + 4, screenshot_text(path, image.len()))
            &&& at + 3 < run.events.len() && run.events[at + 3] == EventView::Saved(false)
                ==> ends_with_error(run, at + 4, ErrorOf::Write(lossy(path)))
        },
        at + 1 < run.events.len() && run.events[at + 1] == EventView::Reply(Ok(answer)) ==> (
        captured(answer) matches Err(e) ==> ends_with_error(run, at + 2, e)),
{
    lemma_kept(config, run, TaskOf::Screenshot { filename }, requested, at);
    lemma_run(config, run, at);
    assert(run.events[at] == run.events[at]);
    if at + 1 < run.events.len() {
        assert(run.events[at + 1] == run.events[at + 1]);
    }
    if at + 2 < run.events.len() {
        assert(run.events[at + 2] == run.events[at + 2]);
    }
    if at + 3 < run.events.len() {
        assert(run.events[at + 3] == run.events[at + 3]);
    }
}

/// A download tells the browser where downloads go, if it can, holds responses
/// up, and clicks the element of the caller's selector or text, as it was given;
/// then it looks into the directory.
#[verifier::rlimit(40)]
pub proof fn law_download_is_clicked(
    config: ConfigView,
    run: Run,
    selector: Option<Seq<char>>,
    text: Option<Seq<char>>,
    timeout_ms: u64,
    requested: Option<Seq<char>>,
    at: int,
    tab: u64,
    value: JsonView,
    x: NumberView,
    y: NumberView,
)
    requires
        is_run_of(config, run, TaskOf::Download { selector, text, timeout_ms }, requested),
        0 <= at < run.events.len(),
        run.ops[at].tab == tab,
    ensures
        attached(run, at, tab) ==> {
            &&& run.actions[at + 1] is PrepareDirs
            &&& at + 1 < run.events.len() ==> (
            run.events[at + 1] matches EventView::Prepared { download, screenshot } ==> if download
                && screenshot {
                &&& commands(
                    run,
                    at + 2,
                    tab,
                    CommandOf::DownloadBehavior(lossy(config.download_dir)),
                )
                &&& at + 2 < run.events.len() && run.events[at + 2] is Reply ==> commands(
                    run,
                    at + 3,
                    tab,
                    CommandOf::FetchEnable,
                )
            } else {
                commands(run, at + 2, tab, CommandOf::FetchEnable)
            })
        },
        commands(run, at, tab, CommandOf::FetchEnable) && replied(run, at) ==> {
            &&& runs(run, at + 1, tab, locate_script(selector, text))
            &&& found(run, at + 1, value, x, y) && all_replied(run, at + 2, at + 6) ==> {
                &&& clicks_at(run, at + 2, tab, x, y)
                &&& run.actions[at + 6] is StartTimer
                &&& at + 6 < run.events.len() && run.events[at + 6] is Started
                    ==> run.actions[at + 7] is ListDownloads
            }
        },
{
    let task = TaskOf::Download { selector, text, timeout_ms };
    lemma_kept(config, run, task, requested, at);
    lemma_run(config, run, at);
    assert(run.events[at] == run.events[at]);
    if attached(run, at, tab) {
        if at + 1 < run.events.len() {
            assert(run.events[at + 1] == run.events[at + 1]);
        }
        if at + 2 < run.events.len() {
            assert(run.events[at + 2] == run.events[at + 2]);
        }
    }
    if commands(run, at, tab, CommandOf::FetchEnable) && replied(run, at) && found(
        run,
        at + 1,
        value,
        x,
        y,
    ) && all_replied(run, at + 2, at + 6) {
        assert(run.events[at + 1] == run.events[at + 1]);
        assert(replied(run, at + 5));
        lemma_clicks(config, run, at + 2, tab, x, y);
        if at + 6 < run.events.len() {
            assert(run.events[at + 6] == run.events[at + 6]);
        }
    }
}

/// Whether a response was let through before a step.
pub open spec fn let_through(run: Run, at: int) -> bool {
    exists|k: int|
        0 <= k < at && #[trigger] replied(run, k) && (run.actions[k] matches ActionOf::Send(
            CallOf::Cdp { command: CommandOf::ContinueResponse(_), .. },
        ))
}

/// Whether a message says that a response of a tab is held up.
pub open spec fn holds_up(message: JsonView, tab: u64) -> bool {
    let params = field(message, "params"@);
    &&& as_text(field(message, "method"@)) == Some("onCDPEvent"@)
    &&& as_text(then_field(params, "method"@)) == Some("Fetch.requestPaused"@)
    &&& as_unsigned(then_field(then_field(params, "source"@), "tabId"@)) == Some(tab)
}

/// The name that a message gives a download, if it tells of one.
pub open spec fn named_download(message: JsonView, tab: u64) -> Option<Seq<char>> {
    if !holds_up(message, tab) && as_text(field(message, "method"@)) == Some("onDownloadChange"@) {
        as_text(then_field(field(message, "params"@), "filename"@))
    } else {
        None
    }
}

/// The last name that the backend gave the download before a step.
pub open spec fn last_name(run: Run, at: int) -> Option<Seq<char>>
    decreases at,
{
    if at <= 0 {
        None
    } else {
        match (run.actions[at - 1], run.events[at - 1]) {
            (ActionOf::NextEvent(_), EventView::Backend(Ok(Some(message)))) => match named_download(
                message,
                run.ops[at - 1].tab,
            ) {
                Some(name) => Some(name),
                None => last_name(run, at - 1),
            },
            _ => last_name(run, at - 1),
        }
    }
}

/// What a download knows is what was seen in its course.
#[verifier::rlimit(40)]
proof fn lemma_download_knows(
    config: ConfigView,
    run: Run,
    task: TaskView,
    requested: Option<Seq<char>>,
    at: int,
)
    requires
        is_run_of(config, run, task, requested),
        task is Download,
        0 <= at < run.ops.len(),
    ensures
        run.ops[at].authorized == let_through(run, at),
        run.ops[at].filename == last_name(run, at),
        at == 0 ==> run.ops[at].stage is Preparing,
        at == 1 ==> run.ops[at].stage is Recording || run.ops[at].stage is Ended,
        at > 1 ==> !(run.ops[at].stage is Preparing || run.ops[at].stage is Recording),
        at > 1 && !(run.ops[at].stage is Ended) ==> (
        run.events[1] matches EventView::Downloads(Ok(listing)) && run.ops[at].before == files_of(
            listing,
        )),
    decreases at,
{
    if at > 0 {
        lemma_download_knows(config, run, task, requested, at - 1);
        lemma_kept(config, run, task, requested, at - 1);
        lemma_run(config, run, at - 1);
        lemma_run_step(config, run, at - 1);
        assert(run.events[at - 1] == run.events[at - 1]);
        if let_through(run, at - 1) {
            let k = choose|k: int|
                0 <= k < at - 1 && #[trigger] replied(run, k) && (
                run.actions[k] matches ActionOf::Send(
                    CallOf::Cdp { command: CommandOf::ContinueResponse(_), .. },
                ));
            assert(replied(run, k));
        }
        if replied(run, at - 1) && (run.actions[at - 1] matches ActionOf::Send(
            CallOf::Cdp { command: CommandOf::ContinueResponse(_), .. },
        )) {
            assert(let_through(run, at));
        }
        if let_through(run, at) && !let_through(run, at - 1) {
            assert(replied(run, at - 1));
        }
    }
}

/// Whether a run ends with a result once responses flow again: the browser is
/// told, and whatever it answers, the operation ends with the result.
pub open spec fn ends_released(
    run: Run,
    at: int,
    tab: u64,
    result: Result<Seq<char>, ErrorView>,
) -> bool {
    &&& commands(run, at, tab, CommandOf::FetchDisable)
    &&& at < run.events.len() && run.events[at] is Reply ==> match result {
        Ok(text) => ends_with_text(run, at + 1, text),
        Err(e) => ends_with_error(run, at + 1, e),
    }
}

/// A download looks into the directory. A file that is complete there, beside
/// those that were there at first, ends it: the caller is told its place, its
/// size, and whether a response was let through for it. Otherwise it goes on
/// until the caller's time is up, and then tells what was seen.
#[verifier::rlimit(40)]
pub proof fn law_download_is_awaited(
    config: ConfigView,
    run: Run,
    selector: Option<Seq<char>>,
    text: Option<Seq<char>>,
    timeout_ms: u64,
    requested: Option<Seq<char>>,
    first: Seq<ListedView>,
    at: int,
    tab: u64,
)
    requires
        is_run_of(config, run, TaskOf::Download { selector, text, timeout_ms }, requested),
        1 < at < run.events.len(),
        run.events[1] == EventView::Downloads(Ok(first)),
        run.ops[at].tab == tab,
    ensures
        run.actions[at] is ListDownloads ==> (run.events[at] matches EventView::Downloads(r)
            ==> match r {
            Err(words) => ends_with_error(run, at + 1, ErrorOf::Outside(words)),
            Ok(listing) => match completed(files_of(listing), files_of(first)) {
                Some(file) => ends_released(
                    run,
                    at + 1,
                    tab,
                    Ok(
                        download_text(
                            lossy(joined_path(config.download_dir, file.0)),
                            file.1,
                            let_through(run, at),
                        ),
                    ),
                ),
                None => run.actions[at + 1] is ReadTimer,
            },
        }),
        run.actions[at] is ReadTimer ==> (run.events[at] matches EventView::Elapsed(ms) ==> if ms
            < timeout_ms {
            run.actions[at + 1] == ActionView::NextEvent(250)
        } else {
            ends_released(
                run,
                at + 1,
                tab,
                Err(
                    ErrorOf::NoDownload {
                        directory: lossy(config.download_dir),
                        timeout_ms,
                        authorized: let_through(run, at),
                        filename: last_name(run, at),
                    },
                ),
            )
        }),
{
    let task = TaskOf::Download { selector, text, timeout_ms };
    lemma_kept(config, run, task, requested, at);
    lemma_run(config, run, at);
    lemma_download_knows(config, run, task, requested, at);
    assert(run.events[at] == run.events[at]);
    if at + 1 < run.events.len() {
        assert(run.events[at + 1] == run.events[at + 1]);
    }
}

/// While a download listens, a response that is held up for its tab is let
/// through by its id, once its URL is allowed as a source of downloads and the
/// browser told so; one from elsewhere ends the operation. After anything else
/// the directory is looked into again.
#[verifier::rlimit(40)]
pub proof fn law_held_response(
    config: ConfigView,
    run: Run,
    task: TaskView,
    requested: Option<Seq<char>>,
    at: int,
    tab: u64,
    message: JsonView,
    id: Seq<char>,
    url: Seq<char>,
)
    requires
        is_run_of(config, run, task, requested),
        task is Download,
        0 <= at < run.events.len(),
        run.actions[at] is NextEvent,
        run.ops[at].tab == tab,
    ensures
        run.events[at] == EventView::Backend(Ok(None)) ==> run.actions[at + 1] is ListDownloads,
        run.events[at] == EventView::Backend(Ok(Some(message))) && !holds_up(message, tab)
            ==> run.actions[at + 1] is ListDownloads,
        run.events[at] == EventView::Backend(Ok(Some(message))) && holds_up(message, tab) ==> {
            let held = then_field(field(message, "params"@), "params"@);
            &&& held is None ==> ends_with_error(run, at + 1, ErrorOf::PausedNoParams(message))
            &&& held is Some && as_text(then_field(held, "requestId"@)) is None ==> ends_with_error(
                run,
                at + 1,
                ErrorOf::PausedNoId(message),
            )
            &&& as_text(then_field(held, "requestId"@)) is Some && as_text(
                then_field(then_field(held, "request"@), "url"@),
            ) is None ==> ends_with_error(run, at + 1, ErrorOf::PausedNoUrl(message))
            &&& as_text(then_field(held, "requestId"@)) == Some(id) && as_text(
                then_field(then_field(held, "request"@), "url"@),
            ) == Some(url) ==> if validated(config.allowed_hosts, url) is Ok {
                &&& run.actions[at + 1] == ActionView::Send(CallOf::AllowDownload { tab, url })
                &&& replied(run, at + 1) ==> commands(
                    run,
                    at + 2,
                    tab,
                    CommandOf::ContinueResponse(id),
                )
                &&& replied(run, at + 1) && replied(run, at + 2)
                    ==> run.actions[at + 3] is ListDownloads
            } else {
                ends_with_error(run, at + 1, ErrorOf::SourceNotAllowed(url))
            }
        },
{
    lemma_kept(config, run, task, requested, at);
    lemma_run(config, run, at);
    assert(run.events[at] == run.events[at]);
    if at + 1 < run.events.len() {
        assert(run.events[at + 1] == run.events[at + 1]);
    }
    if at + 2 < run.events.len() {
        assert(run.events[at + 2] == run.events[at + 2]);
    }
}

} // verus!
