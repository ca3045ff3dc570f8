//! What callers get who leave something out, and the most that they can ask
//! for.
use crate::error::{ControlError, ErrorOf, ErrorView};
use crate::json::{no_fields, object, Fields, Json};
use crate::text::{optional_str, same_text};
use vstd::prelude::*;

verus! {

broadcast use vstd::string::group_string_axioms;

/// The longest wait for an element or a page, in milliseconds.
pub const MAX_WAIT_MS: u64 = 60_000;

/// The longest wait for a download, in milliseconds.
pub const MAX_DOWNLOAD_MS: u64 = 120_000;

/// The longest capture of protocol events, in milliseconds.
pub const MAX_CDP_EVENT_MS: u64 = 30_000;

/// The most protocol events that are captured.
pub const MAX_CDP_EVENTS: usize = 1000;

/// The number of steps in which the cursor is dragged.
pub fn default_drag_steps() -> (steps: usize)
    ensures
        steps == 12,
{
    12
}

/// The number of elements that are described.
pub fn default_element_limit() -> (limit: usize)
    ensures
        limit == 20,
{
    20
}

/// What holds unless it is denied.
pub fn default_true() -> (b: bool)
    ensures
        b,
{
    true
}

/// The wait for an element or a page, in milliseconds.
pub fn default_timeout() -> (ms: u64)
    ensures
        ms == 15_000,
        ms <= MAX_WAIT_MS,
{
    15_000
}

/// The capture of protocol events, in milliseconds.
pub fn default_cdp_event_timeout() -> (ms: u64)
    ensures
        ms == 2_000,
        ms <= MAX_CDP_EVENT_MS,
{
    2_000
}

/// The number of protocol events that are captured.
pub fn default_cdp_event_limit() -> (limit: usize)
    ensures
        limit == 100,
        limit <= MAX_CDP_EVENTS,
{
    100
}

/// The wait for a download, in milliseconds.
pub fn default_download_timeout() -> (ms: u64)
    ensures
        ms == 60_000,
        ms <= MAX_DOWNLOAD_MS,
{
    60_000
}

/// The parameters of a command that has none.
pub fn empty_object() -> (params: Json)
    ensures
        params@ == object(no_fields()),
{
    Fields::new().object()
}

/// `n`, but no more than `most`.
pub open spec fn at_most(n: int, most: int) -> int {
    if n <= most {
        n
    } else {
        most
    }
}

/// The wait for an element or a page that is granted.
pub fn wait_granted(timeout_ms: u64) -> (ms: u64)
    ensures
        ms == at_most(timeout_ms as int, MAX_WAIT_MS as int),
        ms <= MAX_WAIT_MS,
        timeout_ms <= 60_000 ==> ms == timeout_ms,
        timeout_ms > 60_000 ==> ms == 60_000,
{
    if timeout_ms <= MAX_WAIT_MS {
        timeout_ms
    } else {
        MAX_WAIT_MS
    }
}

/// The wait for a download that is granted.
pub fn download_wait_granted(timeout_ms: u64) -> (ms: u64)
    ensures
        ms == at_most(timeout_ms as int, MAX_DOWNLOAD_MS as int),
        ms <= MAX_DOWNLOAD_MS,
        timeout_ms <= 120_000 ==> ms == timeout_ms,
        timeout_ms > 120_000 ==> ms == 120_000,
{
    if timeout_ms <= MAX_DOWNLOAD_MS {
        timeout_ms
    } else {
        MAX_DOWNLOAD_MS
    }
}

/// The capture of protocol events that is granted.
pub fn cdp_event_wait_granted(timeout_ms: u64) -> (ms: u64)
    ensures
        ms == at_most(timeout_ms as int, MAX_CDP_EVENT_MS as int),
        ms <= MAX_CDP_EVENT_MS,
        timeout_ms <= 30_000 ==> ms == timeout_ms,
        timeout_ms > 30_000 ==> ms == 30_000,
{
    if timeout_ms <= MAX_CDP_EVENT_MS {
        timeout_ms
    } else {
        MAX_CDP_EVENT_MS
    }
}

/// The number of protocol events that is granted.
pub fn cdp_events_granted(limit: usize) -> (granted: usize)
    ensures
        granted == at_most(limit as int, MAX_CDP_EVENTS as int),
        granted <= MAX_CDP_EVENTS,
        limit <= 1000 ==> granted == limit,
        limit > 1000 ==> granted == 1000,
{
    if limit <= MAX_CDP_EVENTS {
        limit
    } else {
        MAX_CDP_EVENTS
    }
}

/// What is to be done with the assets of a page. `T` is the type of texts.
#[derive(Debug, PartialEq)]
pub enum AssetsOf<T> {
    /// List them.
    List,
    /// Bundle those of an inventory.
    Bundle(T),
}

/// A request for assets as programs see it.
pub type Assets = AssetsOf<String>;

/// What a request for assets says.
pub type AssetsView = AssetsOf<Seq<char>>;

impl View for AssetsOf<String> {
    type V = AssetsOf<Seq<char>>;

    open spec fn view(&self) -> AssetsOf<Seq<char>> {
        match *self {
            AssetsOf::List => AssetsOf::List,
            AssetsOf::Bundle(id) => AssetsOf::Bundle(id@),
        }
    }
}

/// What an action asks for, of an inventory where one is given.
pub open spec fn assets_wanted(action: Seq<char>, inventory: Option<Seq<char>>) -> Result<
    AssetsView,
    ErrorView,
> {
    if action == "list"@ {
        Ok(AssetsOf::List)
    } else if action == "bundle"@ {
        match inventory {
            Some(id) => Ok(AssetsOf::Bundle(id)),
            None => Err(ErrorOf::NoInventory),
        }
    } else {
        Err(ErrorOf::AssetsAction)
    }
}

/// Reads what an action asks for.
pub fn page_assets(action: &str, inventory_id: Option<&str>) -> (r: Result<Assets, ControlError>)
    ensures
        (match r {
            Ok(assets) => Ok(assets@),
            Err(e) => Err(e@),
        }) == assets_wanted(action@, optional_str(inventory_id)),
        action@ == "list"@ ==> (r matches Ok(assets) && assets is List),
        action@ == "bundle"@ ==> (inventory_id matches Some(id) ==> (r matches Ok(
            AssetsOf::Bundle(own),
        ) && own@ == id@)),
        action@ == "bundle"@ && inventory_id is None ==> (r matches Err(e) && e is NoInventory),
        action@ != "list"@ && action@ != "bundle"@ ==> (r matches Err(e) && e is AssetsAction),
{
    proof {
        reveal_strlit("list");
        reveal_strlit("bundle");
        assert("list"@.len() != "bundle"@.len());
    }
    if same_text(action, "list") {
        Ok(AssetsOf::List)
    } else if same_text(action, "bundle") {
        match inventory_id {
            Some(id) => Ok(AssetsOf::Bundle(id.to_owned())),
            None => Err(ErrorOf::NoInventory),
        }
    } else {
        Err(ErrorOf::AssetsAction)
    }
}

} // verus!
