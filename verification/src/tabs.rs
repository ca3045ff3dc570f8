//! Tabs and which of them an operation works on.
use crate::error::{ControlError, ErrorOf, ErrorView};
use crate::json::{as_flag, as_text, as_unsigned, count, field, items_view, Json, JsonView};
use crate::text::{decimal, is_digit, lemma_decimal, parse_unsigned, unsigned};
use vstd::prelude::*;

verus! {

broadcast use vstd::string::group_string_axioms;

/// A tab of the browser.
#[derive(Debug)]
pub struct Tab {
    pub id: u64,
    pub title: String,
    pub url: String,
    pub active: bool,
}

/// The view of a number or an error.
pub open spec fn id_result(r: Result<u64, ControlError>) -> Result<u64, ErrorView> {
    match r {
        Ok(id) => Ok(id),
        Err(e) => Err(e@),
    }
}

/// The tab id that a text names.
pub open spec fn named_tab(raw: Seq<char>) -> Result<u64, ErrorView> {
    match unsigned(raw) {
        Some(id) => Ok(id),
        None => Err(ErrorOf::TabId(raw)),
    }
}

/// Reads a tab id.
pub fn parse_tab_id(raw: &str) -> (r: Result<u64, ControlError>)
    ensures
        id_result(r) == named_tab(raw@),
{
    match parse_unsigned(raw) {
        Some(id) => Ok(id),
        None => Err(ErrorOf::TabId(raw.to_owned())),
    }
}

/// The number that an id is, or that it writes as text.
pub open spec fn id_number(id: JsonView) -> Option<u64> {
    match as_unsigned(Some(id)) {
        Some(n) => Some(n),
        None => match as_text(Some(id)) {
            Some(raw) => unsigned(raw),
            None => None,
        },
    }
}

/// The tab id that the backend's account of a tab gives: that of its field
/// `id`, or else `tabId`, or the account itself where it is a number.
pub open spec fn tab_id_of(value: JsonView) -> Option<u64> {
    let named = match field(value, "id"@) {
        Some(id) => id_number(id),
        None => match field(value, "tabId"@) {
            Some(id) => id_number(id),
            None => None,
        },
    };
    match named {
        Some(n) => Some(n),
        None => as_unsigned(Some(value)),
    }
}

/// The exec form of [`id_number`].
fn number_of_id(id: &Json) -> (n: Option<u64>)
    ensures
        n == id_number(id@),
{
    match id.as_u64() {
        Some(n) => Some(n),
        None => match id.as_str() {
            Some(raw) => parse_unsigned(raw),
            None => None,
        },
    }
}

/// The exec form of [`tab_id_of`].
pub fn value_tab_id(value: &Json) -> (id: Option<u64>)
    ensures
        id == tab_id_of(value@),
{
    let named = match value.get("id") {
        Some(id) => number_of_id(id),
        None => match value.get("tabId") {
            Some(id) => number_of_id(id),
            None => None,
        },
    };
    match named {
        Some(n) => Some(n),
        None => value.as_u64(),
    }
}

/// Whether a tab with this id is open.
pub open spec fn is_open(tabs: Seq<Tab>, id: u64) -> bool {
    exists|i: int| 0 <= i < tabs.len() && (#[trigger] tabs[i]).id == id
}

/// The first active tab.
pub open spec fn first_active(tabs: Seq<Tab>) -> Option<u64>
    decreases tabs.len(),
{
    if tabs.len() == 0 {
        None
    } else if tabs[0].active {
        Some(tabs[0].id)
    } else {
        first_active(tabs.drop_first())
    }
}

/// The tab that was used last, while it is open.
pub open spec fn last_used(tabs: Seq<Tab>, preferred: Option<u64>) -> Option<u64> {
    if preferred is Some && is_open(tabs, preferred->0) {
        preferred
    } else {
        None
    }
}

/// The first of three tabs that there is.
pub open spec fn first_of(a: Option<u64>, b: Option<u64>, c: Option<u64>) -> Option<u64> {
    if a is Some {
        a
    } else if b is Some {
        b
    } else {
        c
    }
}

/// The tab to work on. Where none is asked for, it is the active one, the first
/// of several; or else the one used last, while it is open; or else the first.
/// One that is asked for is the one, while it is open; in the place of one that
/// is not, the one used last is taken before the active one.
pub open spec fn chosen_tab(
    tabs: Seq<Tab>,
    requested: Option<u64>,
    preferred: Option<u64>,
) -> Option<u64> {
    let first = if tabs.len() > 0 {
        Some(tabs[0].id)
    } else {
        None
    };
    match requested {
        None => first_of(first_active(tabs), last_used(tabs, preferred), first),
        Some(id) => if is_open(tabs, id) {
            Some(id)
        } else {
            first_of(last_used(tabs, preferred), first_active(tabs), first)
        },
    }
}

/// The exec form of [`is_open`].
fn has_tab(tabs: &Vec<Tab>, id: u64) -> (b: bool)
    ensures
        b == is_open(tabs@, id),
{
    let mut i: usize = 0;
    while i < tabs.len()
        invariant
            i <= tabs@.len(),
            forall|k: int| 0 <= k < i ==> (#[trigger] tabs@[k]).id != id,
        decreases tabs@.len() - i,
    {
        if tabs[i].id == id {
            return true;
        }
        i = i + 1;
    }
    false
}

/// The exec form of [`first_active`].
fn active_tab(tabs: &Vec<Tab>) -> (id: Option<u64>)
    ensures
        id == first_active(tabs@),
{
    let mut i: usize = 0;
    assert(tabs@.skip(0) =~= tabs@);
    while i < tabs.len()
        invariant
            i <= tabs@.len(),
            first_active(tabs@) == first_active(tabs@.skip(i as int)),
        decreases tabs@.len() - i,
    {
        if tabs[i].active {
            return Some(tabs[i].id);
        }
        assert(tabs@.skip(i as int).drop_first() =~= tabs@.skip(i + 1));
        i = i + 1;
    }
    None
}

/// The exec form of [`last_used`].
fn used_tab(tabs: &Vec<Tab>, preferred: Option<u64>) -> (id: Option<u64>)
    ensures
        id == last_used(tabs@, preferred),
{
    match preferred {
        Some(id) => if has_tab(tabs, id) {
            Some(id)
        } else {
            None
        },
        None => None,
    }
}

/// The exec form of [`chosen_tab`].
pub fn choose_tab(tabs: &Vec<Tab>, requested: Option<u64>, preferred: Option<u64>) -> (id: Option<
    u64,
>)
    ensures
        id == chosen_tab(tabs@, requested, preferred),
{
    let active = active_tab(tabs);
    let used = used_tab(tabs, preferred);
    let (one, other) = match requested {
        Some(id) => {
            if has_tab(tabs, id) {
                return Some(id);
            }
            (used, active)
        },
        None => (active, used),
    };
    if one.is_some() {
        one
    } else if other.is_some() {
        other
    } else if tabs.len() > 0 {
        Some(tabs[0].id)
    } else {
        None
    }
}

/// The first tab of the user's that is active.
pub open spec fn first_active_account(tabs: Seq<JsonView>) -> Option<JsonView>
    decreases tabs.len(),
{
    if tabs.len() == 0 {
        None
    } else if as_flag(field(tabs[0], "active"@)) == Some(true) {
        Some(tabs[0])
    } else {
        first_active_account(tabs.drop_first())
    }
}

/// The tab of the user's to take over: the first active one, or the first.
pub open spec fn user_tab(accounts: JsonView) -> Option<u64> {
    match accounts {
        JsonView::Array(tabs) => match first_active_account(tabs) {
            Some(tab) => tab_id_of(tab),
            None => if tabs.len() > 0 {
                tab_id_of(tabs[0])
            } else {
                None
            },
        },
        _ => None,
    }
}

/// The exec form of [`user_tab`].
pub fn choose_user_tab(accounts: &Json) -> (id: Option<u64>)
    ensures
        id == user_tab(accounts@),
{
    broadcast use crate::json::lemma_json_view;

    match accounts {
        Json::Array(tabs) => {
            let ghost views = items_view(tabs@);
            let mut i: usize = 0;
            assert(views.skip(0) =~= views);
            while i < tabs.len()
                invariant
                    i <= tabs@.len(),
                    views == items_view(tabs@),
                    accounts@ == JsonView::Array(views),
                    first_active_account(views) == first_active_account(views.skip(i as int)),
                decreases tabs@.len() - i,
            {
                assert(views.skip(i as int)[0] == tabs@[i as int]@);
                let active = match tabs[i].get("active") {
                    Some(flag) => flag.as_bool() == Some(true),
                    None => false,
                };
                if active {
                    return value_tab_id(&tabs[i]);
                }
                assert(views.skip(i as int).drop_first() =~= views.skip(i + 1));
                i = i + 1;
            }
            if tabs.len() > 0 {
                assert(views[0] == tabs@[0]@);
                value_tab_id(&tabs[0])
            } else {
                None
            }
        },
        _ => None,
    }
}

/// The tab to work on is open, and there is one where any tab is open.
pub proof fn law_chosen_tab_is_open(
    tabs: Seq<Tab>,
    requested: Option<u64>,
    preferred: Option<u64>,
)
    ensures
        chosen_tab(tabs, requested, preferred) matches Some(id) ==> is_open(tabs, id),
        chosen_tab(tabs, requested, preferred) is Some <==> tabs.len() > 0,
{
    if first_active(tabs) is Some {
        lemma_first_active(tabs);
    } else if tabs.len() > 0 {
        assert(tabs[0].id == tabs[0].id);
    }
}

proof fn lemma_first_active(tabs: Seq<Tab>)
    requires
        first_active(tabs) is Some,
    ensures
        is_open(tabs, first_active(tabs)->0),
    decreases tabs.len(),
{
    if tabs[0].active {
        assert(tabs[0].id == first_active(tabs)->0);
    } else {
        let rest = tabs.drop_first();
        lemma_first_active(rest);
        let i = choose|i: int|
            0 <= i < rest.len() && (#[trigger] rest[i]).id == first_active(rest)->0;
        assert(tabs[i + 1] == rest[i]);
    }
}

/// A tab that is asked for and open is the one to work on.
pub proof fn law_requested_tab_wins(tabs: Seq<Tab>, id: u64, preferred: Option<u64>)
    requires
        is_open(tabs, id),
    ensures
        chosen_tab(tabs, Some(id), preferred) == Some(id),
{
}

proof fn lemma_only_active(tabs: Seq<Tab>, at: int)
    requires
        0 <= at < tabs.len(),
        tabs[at].active,
        forall|k: int| 0 <= k < at ==> !(#[trigger] tabs[k]).active,
    ensures
        first_active(tabs) == Some(tabs[at].id),
    decreases tabs.len(),
{
    if at > 0 {
        let rest = tabs.drop_first();
        assert forall|k: int| 0 <= k < at - 1 implies !(#[trigger] rest[k]).active by {
            assert(rest[k] == tabs[k + 1]);
        }
        assert(!tabs[0].active);
        lemma_only_active(rest, at - 1);
    }
}

/// Where no tab is asked for, the active one is the one to work on, whatever
/// tab was used last: the only one that is active, or the first of several.
pub proof fn law_active_tab_is_used(tabs: Seq<Tab>, at: int, preferred: Option<u64>)
    requires
        0 <= at < tabs.len(),
        tabs[at].active,
        forall|k: int| 0 <= k < at ==> !(#[trigger] tabs[k]).active,
    ensures
        chosen_tab(tabs, None, preferred) == Some(tabs[at].id),
{
    lemma_only_active(tabs, at);
}

/// The choice is stable: among the same tabs, the tab that was chosen is chosen
/// again once it is the one used last.
pub proof fn law_choice_is_stable(tabs: Seq<Tab>, requested: Option<u64>, preferred: Option<u64>)
    ensures
        chosen_tab(tabs, requested, chosen_tab(tabs, requested, preferred)) == chosen_tab(
            tabs,
            requested,
            preferred,
        ),
{
    law_chosen_tab_is_open(tabs, requested, preferred);
}

/// The decimal form of a tab id names the tab.
pub proof fn law_tab_id_round_trip(id: u64)
    ensures
        named_tab(decimal(id as nat)) == Ok::<u64, ErrorView>(id),
{
    lemma_decimal(id as nat);
}

/// A plus sign before a tab id changes nothing, and what is not made of digits,
/// or is too large, names no tab.
pub proof fn law_only_numbers_name_tabs(id: u64, raw: Seq<char>, at: int)
    ensures
        named_tab(seq!['+'] + decimal(id as nat)) == Ok::<u64, ErrorView>(id),
        raw.len() == 0 || raw == seq!['+'] ==> named_tab(raw) == Err::<u64, ErrorView>(
            ErrorOf::TabId(raw),
        ),
        0 <= at < raw.len() && !('0' <= raw[at] <= '9') && !(at == 0 && raw[at] == '+') ==> named_tab(
            raw,
        ) == Err::<u64, ErrorView>(ErrorOf::TabId(raw)),
        raw == decimal(u64::MAX as nat + 1) ==> named_tab(raw) == Err::<u64, ErrorView>(
            ErrorOf::TabId(raw),
        ),
{
    lemma_decimal(id as nat);
    lemma_decimal(u64::MAX as nat + 1);
    assert((seq!['+'] + decimal(id as nat)).drop_first() =~= decimal(id as nat));
    if 0 <= at < raw.len() && !('0' <= raw[at] <= '9') && !(at == 0 && raw[at] == '+') {
        if raw[0] == '+' {
            assert(raw.drop_first()[at - 1] == raw[at]);
            assert(!is_digit(raw.drop_first()[at - 1]));
        } else {
            assert(!is_digit(raw[at]));
        }
    }
    if raw == seq!['+'] {
        assert(raw.drop_first() =~= Seq::<char>::empty());
    }
}

/// A tab is known by its id, a number or the text of one, under either name, or
/// by an account that is itself a number; nothing else is an id.
pub proof fn law_tab_id_is_read(value: JsonView, n: u64)
    ensures
        field(value, "id"@) == Some(count(n)) ==> tab_id_of(value) == Some(n),
        field(value, "id"@) == Some(JsonView::Text(decimal(n as nat))) ==> tab_id_of(value) == Some(
            n,
        ),
        field(value, "id"@) is None && field(value, "tabId"@) == Some(count(n)) ==> tab_id_of(value)
            == Some(n),
        field(value, "id"@) is None && field(value, "tabId"@) == Some(
            JsonView::Text(decimal(n as nat)),
        ) ==> tab_id_of(value) == Some(n),
        tab_id_of(count(n)) == Some(n),
        field(value, "id"@) is None && field(value, "tabId"@) is None && !(value is Number)
            ==> tab_id_of(value) is None,
{
    law_tab_id_round_trip(n);
}

proof fn lemma_first_active_account(tabs: Seq<JsonView>, at: int)
    requires
        0 <= at <= tabs.len(),
        at < tabs.len() ==> field(tabs[at], "active"@) == Some(JsonView::Bool(true)),
        forall|k: int|
            0 <= k < at ==> field(#[trigger] tabs[k], "active"@) != Some(JsonView::Bool(true)),
    ensures
        first_active_account(tabs) == if at < tabs.len() {
            Some(tabs[at])
        } else {
            None
        },
    decreases at,
{
    if at > 0 {
        let rest = tabs.drop_first();
        assert forall|k: int| 0 <= k < at - 1 implies field(#[trigger] rest[k], "active"@) != Some(
            JsonView::Bool(true),
        ) by {
            assert(rest[k] == tabs[k + 1]);
        }
        assert(field(tabs[0], "active"@) != Some(JsonView::Bool(true)));
        if at < tabs.len() {
            assert(rest[at - 1] == tabs[at]);
        }
        lemma_first_active_account(rest, at - 1);
    }
}

/// Of the user's tabs the first active one is taken over, or the first one
/// where none is active; where there are none, none is.
pub proof fn law_active_user_tab_is_taken(tabs: Seq<JsonView>, at: int)
    requires
        0 <= at <= tabs.len(),
        at < tabs.len() ==> field(tabs[at], "active"@) == Some(JsonView::Bool(true)),
        forall|k: int|
            0 <= k < at ==> field(#[trigger] tabs[k], "active"@) != Some(JsonView::Bool(true)),
    ensures
        at < tabs.len() ==> user_tab(JsonView::Array(tabs)) == tab_id_of(tabs[at]),
        at == tabs.len() && tabs.len() > 0 ==> user_tab(JsonView::Array(tabs)) == tab_id_of(tabs[0]),
        tabs.len() == 0 ==> user_tab(JsonView::Array(tabs)) is None,
{
    lemma_first_active_account(tabs, at);
}

} // verus!
