//! Finding the browser of the task among the sockets of a directory.
use crate::config::{BrowserConfig, ConfigView};
use crate::error::{json_result, message, phrase, ControlError, ErrorOf, ErrorView};
use crate::json::{as_text, field, then_field, Json, JsonView};
use crate::path::{extension_is, has_extension, lossy, path_text};
use crate::text::{join, joined, same_text, texts};
use vstd::prelude::*;
use vstd::utf8::encode_utf8;

verus! {

broadcast use vstd::string::group_string_axioms;

/// An entry of the socket directory.
#[derive(Debug)]
pub struct SocketEntry {
    pub path: Vec<u8>,
    pub name: Vec<u8>,
    pub is_socket: bool,
}

/// What an entry of the socket directory says.
pub struct SocketView {
    pub path: Seq<u8>,
    pub name: Seq<u8>,
    pub is_socket: bool,
}

impl View for SocketEntry {
    type V = SocketView;

    open spec fn view(&self) -> SocketView {
        SocketView { path: self.path@, name: self.name@, is_socket: self.is_socket }
    }
}

/// What the search is told: whether the directory can be read, its next entry
/// or that there is none, whether a socket could be opened, and how the
/// browser behind it describes itself.
#[derive(Debug)]
pub enum ProbeEvent {
    Directory(bool),
    Entry(Option<SocketEntry>),
    EntryFailed(String),
    Opened(Result<(), String>),
    Info(Result<Json, ControlError>),
}

/// What a [`ProbeEvent`] says.
pub enum ProbeEventView {
    Directory(bool),
    Entry(Option<SocketView>),
    EntryFailed(Seq<char>),
    Opened(Result<(), Seq<char>>),
    Info(Result<JsonView, ErrorView>),
}

impl View for ProbeEvent {
    type V = ProbeEventView;

    open spec fn view(&self) -> ProbeEventView {
        match *self {
            ProbeEvent::Directory(readable) => ProbeEventView::Directory(readable),
            ProbeEvent::Entry(Some(entry)) => ProbeEventView::Entry(Some(entry@)),
            ProbeEvent::Entry(None) => ProbeEventView::Entry(None),
            ProbeEvent::EntryFailed(words) => ProbeEventView::EntryFailed(words@),
            ProbeEvent::Opened(Ok(_)) => ProbeEventView::Opened(Ok(())),
            ProbeEvent::Opened(Err(words)) => ProbeEventView::Opened(Err(words@)),
            ProbeEvent::Info(r) => ProbeEventView::Info(json_result(r)),
        }
    }
}

/// What is to be done next in the search. `B` is the type of paths and `E`
/// that of errors.
#[derive(Debug)]
pub enum ProbeActionOf<B, E> {
    /// Go to the next entry of the directory.
    NextEntry,
    /// Open the socket at this path.
    Open(B),
    /// Ask the browser behind the socket to describe itself.
    AskInfo,
    /// Use the connection.
    Use,
    /// Give up.
    Fail(E),
}

/// The next step of the search as programs see it.
pub type ProbeAction = ProbeActionOf<Vec<u8>, ControlError>;

/// What the next step of the search says.
pub type ProbeActionView = ProbeActionOf<Seq<u8>, ErrorView>;

impl View for ProbeActionOf<Vec<u8>, ControlError> {
    type V = ProbeActionOf<Seq<u8>, ErrorView>;

    open spec fn view(&self) -> ProbeActionOf<Seq<u8>, ErrorView> {
        match *self {
            ProbeActionOf::NextEntry => ProbeActionOf::NextEntry,
            ProbeActionOf::Open(path) => ProbeActionOf::Open(path@),
            ProbeActionOf::AskInfo => ProbeActionOf::AskInfo,
            ProbeActionOf::Use => ProbeActionOf::Use,
            ProbeActionOf::Fail(e) => ProbeActionOf::Fail(e@),
        }
    }
}

/// A search: the socket at hand, and the sockets that failed.
#[derive(Debug)]
pub struct Probe {
    path: Vec<u8>,
    failures: Vec<String>,
}

/// What a search knows.
pub struct ProbeView {
    pub path: Seq<u8>,
    pub failures: Seq<Seq<char>>,
}

impl View for Probe {
    type V = ProbeView;

    closed spec fn view(&self) -> ProbeView {
        ProbeView { path: self.path@, failures: texts(self.failures@) }
    }
}

/// Whether an entry can be a socket of a browser.
pub open spec fn is_candidate(entry: SocketView) -> bool {
    entry.is_socket && has_extension(entry.name, encode_utf8("sock"@))
}

/// Whether a browser describes itself as the in-app browser of the session.
pub open spec fn is_own_browser(info: JsonView, session_id: Seq<char>) -> bool {
    &&& as_text(field(info, "type"@)) == Some("iab"@)
    &&& as_text(then_field(field(info, "metadata"@), "codexSessionId"@)) == Some(session_id)
}

/// The note on a socket that failed.
pub open spec fn failure_note(path: Seq<u8>, words: Seq<char>) -> Seq<char> {
    lossy(path) + ": "@ + words
}

/// The first four of some notes.
pub open spec fn first_four(notes: Seq<Seq<char>>) -> Seq<Seq<char>> {
    if notes.len() <= 4 {
        notes
    } else {
        notes.take(4)
    }
}

/// That no socket belongs to the browser of the task.
pub open spec fn no_browser(config: ConfigView, failures: Seq<Seq<char>>) -> ErrorView {
    ErrorOf::NoBrowser {
        session: config.session_id,
        directory: lossy(config.socket_dir),
        probes: join(first_four(failures), " | "@),
    }
}

/// A step of the search.
pub open spec fn probed(config: ConfigView, probe: ProbeView, event: ProbeEventView) -> (
    ProbeView,
    ProbeActionView,
) {
    match event {
        ProbeEventView::Directory(readable) => if readable {
            (probe, ProbeActionOf::NextEntry)
        } else {
            (probe, ProbeActionOf::Fail(ErrorOf::Sockets(lossy(config.socket_dir))))
        },
        ProbeEventView::EntryFailed(words) => (
            probe,
            ProbeActionOf::Fail(ErrorOf::Outside(words)),
        ),
        ProbeEventView::Entry(None) => (
            probe,
            ProbeActionOf::Fail(no_browser(config, probe.failures)),
        ),
        ProbeEventView::Entry(Some(entry)) => if is_candidate(entry) {
            (ProbeView { path: entry.path, ..probe }, ProbeActionOf::Open(entry.path))
        } else {
            (probe, ProbeActionOf::NextEntry)
        },
        ProbeEventView::Opened(Ok(_)) => (probe, ProbeActionOf::AskInfo),
        ProbeEventView::Opened(Err(words)) => (
            ProbeView {
                failures: probe.failures.push(failure_note(probe.path, words)),
                ..probe
            },
            ProbeActionOf::NextEntry,
        ),
        ProbeEventView::Info(Ok(info)) => if is_own_browser(info, config.session_id) {
            (probe, ProbeActionOf::Use)
        } else {
            (probe, ProbeActionOf::NextEntry)
        },
        ProbeEventView::Info(Err(e)) => (
            ProbeView {
                failures: probe.failures.push(failure_note(probe.path, message(e))),
                ..probe
            },
            ProbeActionOf::NextEntry,
        ),
    }
}

/// The exec form of [`is_own_browser`].
fn own_browser(info: &Json, session_id: &str) -> (b: bool)
    ensures
        b == is_own_browser(info@, session_id@),
{
    let in_app = match info.get("type") {
        Some(kind) => match kind.as_str() {
            Some(kind) => same_text(kind, "iab"),
            None => false,
        },
        None => false,
    };
    if !in_app {
        return false;
    }
    match info.get("metadata") {
        Some(metadata) => match metadata.get("codexSessionId") {
            Some(id) => match id.as_str() {
                Some(id) => same_text(id, session_id),
                None => false,
            },
            None => false,
        },
        None => false,
    }
}

impl Probe {
    /// A search that has not begun.
    pub fn new() -> (probe: Probe)
        ensures
            probe@ == (ProbeView { path: Seq::empty(), failures: Seq::empty() }),
    {
        let probe = Probe { path: Vec::new(), failures: Vec::new() };
        assert(probe@.failures =~= Seq::<Seq<char>>::empty());
        probe
    }

    /// Notes that the socket at hand failed.
    fn note(&mut self, words: &str)
        ensures
            final(self)@ == (ProbeView {
                failures: old(self)@.failures.push(failure_note(old(self)@.path, words@)),
                ..old(self)@
            }),
    {
        let ghost before = texts(self.failures@);
        let note = phrase(&path_text(&self.path), ": ", words);
        let ghost view = note@;
        self.failures.push(note);
        assert(texts(self.failures@) =~= before.push(view));
    }

    /// Takes the search a step further.
    pub fn step(&mut self, config: &BrowserConfig, event: ProbeEvent) -> (action: ProbeAction)
        ensures
            (final(self)@, action@) == probed(config@, old(self)@, event@),
    {
        match event {
            ProbeEvent::Directory(readable) => if readable {
                ProbeActionOf::NextEntry
            } else {
                ProbeActionOf::Fail(ErrorOf::Sockets(path_text(&config.socket_dir)))
            },
            ProbeEvent::EntryFailed(words) => ProbeActionOf::Fail(ErrorOf::Outside(words)),
            ProbeEvent::Entry(None) => {
                let ghost notes = texts(self.failures@);
                let shown: usize = if self.failures.len() <= 4 {
                    self.failures.len()
                } else {
                    4
                };
                let probes = joined(&self.failures, shown, " | ");
                assert(notes.take(shown as int) =~= first_four(notes));
                ProbeActionOf::Fail(
                    ErrorOf::NoBrowser {
                        session: config.session_id.clone(),
                        directory: path_text(&config.socket_dir),
                        probes,
                    },
                )
            },
            ProbeEvent::Entry(Some(entry)) => if entry.is_socket && extension_is(
                &entry.name,
                "sock".as_bytes(),
            ) {
                self.path = entry.path.clone();
                assert(self.path@ =~= entry.path@);
                ProbeActionOf::Open(entry.path)
            } else {
                ProbeActionOf::NextEntry
            },
            ProbeEvent::Opened(Ok(_)) => ProbeActionOf::AskInfo,
            ProbeEvent::Opened(Err(words)) => {
                self.note(&words);
                ProbeActionOf::NextEntry
            },
            ProbeEvent::Info(Ok(info)) => if own_browser(&info, &config.session_id) {
                ProbeActionOf::Use
            } else {
                ProbeActionOf::NextEntry
            },
            ProbeEvent::Info(Err(e)) => {
                self.note(&e.message());
                ProbeActionOf::NextEntry
            },
        }
    }
}

/// Only the in-app browser of the task is used: a search ends with a
/// connection only where the browser describes itself as one of the kind, for
/// the session of the task.
pub proof fn law_own_browser_only(config: ConfigView, probe: ProbeView, event: ProbeEventView)
    requires
        probed(config, probe, event).1 is Use,
    ensures
        event matches ProbeEventView::Info(Ok(info)) && is_own_browser(info, config.session_id),
{
}

/// Only sockets named as such are opened, by the path at which they were listed.
pub proof fn law_only_sockets_are_opened(
    config: ConfigView,
    probe: ProbeView,
    event: ProbeEventView,
    path: Seq<u8>,
)
    requires
        probed(config, probe, event).1 == ProbeActionView::Open(path),
    ensures
        event matches ProbeEventView::Entry(Some(entry)) && entry.is_socket && has_extension(
            entry.name,
            encode_utf8("sock"@),
        ) && entry.path == path,
{
}

/// A browser that is not that of the task, or that fails, does not end the
/// search, and the search fails where no entry is left.
pub proof fn law_search_goes_on(config: ConfigView, probe: ProbeView, event: ProbeEventView)
    ensures
        event is Info && !(probed(config, probe, event).1 is Use) ==> probed(
            config,
            probe,
            event,
        ).1 is NextEntry,
        event == ProbeEventView::Entry(None) ==> probed(config, probe, event).1
            == ProbeActionView::Fail(no_browser(config, probe.failures)),
{
}

/// The in-app browser of the session is used where it is found, and any other
/// is passed over.
pub proof fn law_own_browser_is_used(config: ConfigView, probe: ProbeView, info: JsonView)
    ensures
        ({
            let own = field(info, "type"@) == Some(JsonView::Text("iab"@)) && then_field(
                field(info, "metadata"@),
                "codexSessionId"@,
            ) == Some(JsonView::Text(config.session_id));
            probed(config, probe, ProbeEventView::Info(Ok(info))) == (
                probe,
                if own {
                    ProbeActionView::Use
                } else {
                    ProbeActionView::NextEntry
                },
            )
        }),
{
}

/// Every socket of the directory is tried: one with the right name is opened
/// and asked, and what fails there is noted with its path behind what was noted
/// before.
pub proof fn law_every_socket_is_tried(
    config: ConfigView,
    probe: ProbeView,
    entry: SocketView,
    words: Seq<char>,
    e: ErrorView,
)
    ensures
        entry.is_socket && has_extension(entry.name, encode_utf8("sock"@)) ==> probed(
            config,
            probe,
            ProbeEventView::Entry(Some(entry)),
        ) == (
            ProbeView { path: entry.path, failures: probe.failures },
            ProbeActionView::Open(entry.path),
        ),
        !(entry.is_socket && has_extension(entry.name, encode_utf8("sock"@))) ==> probed(
            config,
            probe,
            ProbeEventView::Entry(Some(entry)),
        ) == (probe, ProbeActionView::NextEntry),
        probed(config, probe, ProbeEventView::Directory(true)) == (
            probe,
            ProbeActionView::NextEntry,
        ),
        probed(config, probe, ProbeEventView::Opened(Ok(()))) == (probe, ProbeActionView::AskInfo),
        probed(config, probe, ProbeEventView::Opened(Err(words))) == (
            ProbeView {
                path: probe.path,
                failures: probe.failures.push(lossy(probe.path) + ": "@ + words),
            },
            ProbeActionView::NextEntry,
        ),
        probed(config, probe, ProbeEventView::Info(Err(e))) == (
            ProbeView {
                path: probe.path,
                failures: probe.failures.push(lossy(probe.path) + ": "@ + message(e)),
            },
            ProbeActionView::NextEntry,
        ),
{
}

/// A search that finds nothing says for which session it searched, where, and
/// what failed there, the first four of it; one that cannot read the directory
/// says so.
pub proof fn law_vain_search_is_told(config: ConfigView, probe: ProbeView, words: Seq<char>)
    ensures
        probed(config, probe, ProbeEventView::Entry(None)).1 matches ProbeActionOf::Fail(
            ErrorOf::NoBrowser { session, directory, probes },
        ) && session == config.session_id && directory == lossy(config.socket_dir) && probes == join(
            probe.failures.take(
                if probe.failures.len() < 4 {
                    probe.failures.len() as int
                } else {
                    4
                },
            ),
            " | "@,
        ),
        probed(config, probe, ProbeEventView::Directory(false)).1 == ProbeActionView::Fail(
            ErrorOf::Sockets(lossy(config.socket_dir)),
        ),
        probed(config, probe, ProbeEventView::EntryFailed(words)).1 == ProbeActionView::Fail(
            ErrorOf::Outside(words),
        ),
{
    assert(probe.failures.take(probe.failures.len() as int) =~= probe.failures);
}

} // verus!
