//! The texts that operations end with.
use crate::config::{BrowserConfig, ConfigView};
use crate::json::{
    as_text, compact, count, field, json_pretty, json_text, no_fields, number_view, object, pretty,
    Fields, Json, JsonView, NumberView,
};
use crate::path::{lossy, path_text};
use crate::protocol::words;
use crate::text::{
    bool_text, bool_word, contains_text, decimal, decimal_text, join, joined, texts,
};
use vstd::prelude::*;

verus! {

broadcast use vstd::string::group_string_axioms;

/// That the browser is ready.
pub open spec fn launch_text(
    config: ConfigView,
    socket: Seq<u8>,
    tab: u64,
    identity: JsonView,
) -> Seq<char> {
    "Codex in-app browser ready\nsocket: "@ + lossy(socket) + "\ntask: "@ + config.session_id
        + "\ntab: "@ + decimal(tab as nat) + "\ndownloads: "@ + lossy(config.download_dir)
        + "\npage: "@ + compact(identity)
}

/// The exec form of [`launch_text`].
pub fn launch_report(config: &BrowserConfig, socket: &Vec<u8>, tab: u64, identity: &Json) -> (text:
    String)
    ensures
        text@ == launch_text(config@, socket@, tab, identity@),
{
    let mut text = "Codex in-app browser ready\nsocket: ".to_owned();
    text.append(&path_text(socket));
    text.append("\ntask: ");
    text.append(&config.session_id);
    text.append("\ntab: ");
    text.append(&decimal_text(tab as u128));
    text.append("\ndownloads: ");
    text.append(&path_text(&config.download_dir));
    text.append("\npage: ");
    text.append(&json_text(identity));
    text
}

/// The name by which a browser describes itself.
pub open spec fn browser_name(info: JsonView) -> Seq<char> {
    match as_text(field(info, "name"@)) {
        Some(name) => name,
        None => "Codex in-app browser"@,
    }
}

/// What the connection leads to.
pub open spec fn status_text(
    config: ConfigView,
    info: JsonView,
    socket: Seq<u8>,
    turn: Seq<char>,
    tabs: nat,
) -> Seq<char> {
    "connected: true\nbackend: "@ + browser_name(info) + "\nsocket: "@ + lossy(socket)
        + "\ntask: "@ + config.session_id + "\nturn: "@ + turn + "\ntabs: "@ + decimal(tabs)
        + "\ndownloads: "@ + lossy(config.download_dir) + "\nscreenshots: "@ + lossy(
        config.screenshot_dir,
    ) + "\nallowed hosts: "@ + join(config.allowed_hosts, ", "@)
}

/// The exec form of [`status_text`].
pub fn status_report(
    config: &BrowserConfig,
    info: &Json,
    socket: &Vec<u8>,
    turn: &str,
    tabs: usize,
) -> (text: String)
    ensures
        text@ == status_text(config@, info@, socket@, turn@, tabs as nat),
{
    let mut text = "connected: true\nbackend: ".to_owned();
    match info.get("name") {
        Some(name) => match name.as_str() {
            Some(name) => text.append(name),
            None => text.append("Codex in-app browser"),
        },
        None => text.append("Codex in-app browser"),
    }
    text.append("\nsocket: ");
    text.append(&path_text(socket));
    text.append("\ntask: ");
    text.append(&config.session_id);
    text.append("\nturn: ");
    text.append(turn);
    text.append("\ntabs: ");
    text.append(&decimal_text(tabs as u128));
    text.append("\ndownloads: ");
    text.append(&path_text(&config.download_dir));
    text.append("\nscreenshots: ");
    text.append(&path_text(&config.screenshot_dir));
    text.append("\nallowed hosts: ");
    let ghost hosts = texts(config.allowed_hosts@);
    assert(hosts.take(hosts.len() as int) =~= hosts);
    text.append(&joined(&config.allowed_hosts, config.allowed_hosts.len(), ", "));
    text
}

/// A number as the formatting of `std` writes its double with one digit behind
/// the point.
pub uninterp spec fn tenths(n: NumberView) -> Seq<char>;

/// The text that `std` formats for the double of a `serde_json::Number`
/// (`Number::as_f64`, which every number has), with one digit behind the point.
#[verifier::external_body]
fn in_tenths(n: &serde_json::Number) -> (text: String)
    ensures
        text@ == tenths(number_view(*n)),
{
    format!("{:.1}", n.as_f64().unwrap())
}

/// That the cursor was moved.
pub open spec fn cursor_text(x: NumberView, y: NumberView, tab: u64) -> Seq<char> {
    "moved visible Codex cursor to ("@ + tenths(x) + ", "@ + tenths(y) + ") in tab "@ + decimal(
        tab as nat,
    )
}

/// The exec form of [`cursor_text`].
pub fn cursor_report(x: &serde_json::Number, y: &serde_json::Number, tab: u64) -> (text: String)
    ensures
        text@ == cursor_text(number_view(*x), number_view(*y), tab),
{
    let mut text = "moved visible Codex cursor to (".to_owned();
    text.append(&in_tenths(x));
    text.append(", ");
    text.append(&in_tenths(y));
    text.append(") in tab ");
    text.append(&decimal_text(tab as u128));
    text
}

/// That an element was clicked.
pub open spec fn click_text(found: JsonView, tab: u64) -> Seq<char> {
    pretty(
        object(
            no_fields().push(("clicked"@, found)).push(("tabId"@, count(tab))).push(
                ("visibleCursor"@, JsonView::Bool(true)),
            ),
        ),
    )
}

/// The exec form of [`click_text`].
pub fn click_report(found: Json, tab: u64) -> (text: String)
    ensures
        text@ == click_text(found@, tab),
{
    json_pretty(
        &Fields::new().with("clicked", found).with("tabId", Json::unsigned(tab)).with(
            "visibleCursor",
            Json::Bool(true),
        ).object(),
    )
}

/// That text was typed.
pub open spec fn type_text_done(selector: Seq<char>, typed: nat, submit: bool) -> Seq<char> {
    "typed "@ + decimal(typed) + " characters into "@ + selector + "; submitted: "@ + bool_word(
        submit,
    ) + "; visible cursor: true"@
}

/// The exec form of [`type_text_done`].
pub fn type_report(selector: &str, typed: usize, submit: bool) -> (text: String)
    ensures
        text@ == type_text_done(selector@, typed as nat, submit),
{
    let mut text = "typed ".to_owned();
    text.append(&decimal_text(typed as u128));
    text.append(" characters into ");
    text.append(selector);
    text.append("; submitted: ");
    text.append(bool_text(submit));
    text.append("; visible cursor: true");
    text
}

/// That an option was selected.
pub open spec fn select_text(selected: JsonView, tab: u64) -> Seq<char> {
    pretty(
        object(
            no_fields().push(("selected"@, selected)).push(("tabId"@, count(tab))).push(
                ("visibleCursor"@, JsonView::Bool(true)),
            ),
        ),
    )
}

/// The exec form of [`select_text`].
pub fn select_report(selected: Json, tab: u64) -> (text: String)
    ensures
        text@ == select_text(selected@, tab),
{
    json_pretty(
        &Fields::new().with("selected", selected).with("tabId", Json::unsigned(tab)).with(
            "visibleCursor",
            Json::Bool(true),
        ).object(),
    )
}

/// That an element has the requested state.
pub open spec fn checked_text(checked: bool, selector: Seq<char>, tab: u64) -> Seq<char> {
    pretty(
        object(
            no_fields().push(("checked"@, JsonView::Bool(checked))).push(
                ("selector"@, words(selector)),
            ).push(("tabId"@, count(tab))).push(("visibleCursor"@, JsonView::Bool(true))),
        ),
    )
}

/// The exec form of [`checked_text`].
pub fn checked_report(checked: bool, selector: &str, tab: u64) -> (text: String)
    ensures
        text@ == checked_text(checked, selector@, tab),
{
    json_pretty(
        &Fields::new().with("checked", Json::Bool(checked)).with(
            "selector",
            Json::text(selector),
        ).with("tabId", Json::unsigned(tab)).with("visibleCursor", Json::Bool(true)).object(),
    )
}

/// That the page was scrolled by `dx` and `dy` at a point.
pub open spec fn scroll_text(
    tab: u64,
    x: NumberView,
    y: NumberView,
    dx: NumberView,
    dy: NumberView,
) -> Seq<char> {
    pretty(
        object(
            no_fields().push(("tabId"@, count(tab))).push(
                (
                    "point"@,
                    object(
                        no_fields().push(("x"@, JsonView::Number(x))).push(
                            ("y"@, JsonView::Number(y)),
                        ),
                    ),
                ),
            ).push(("scrollX"@, JsonView::Number(dx))).push(("scrollY"@, JsonView::Number(dy))).push(
                ("visibleCursor"@, JsonView::Bool(true)),
            ),
        ),
    )
}

/// The exec form of [`scroll_text`].
pub fn scroll_report(
    tab: u64,
    x: &serde_json::Number,
    y: &serde_json::Number,
    dx: &serde_json::Number,
    dy: &serde_json::Number,
) -> (text: String)
    ensures
        text@ == scroll_text(
            tab,
            number_view(*x),
            number_view(*y),
            number_view(*dx),
            number_view(*dy),
        ),
{
    let point = Fields::new().with("x", Json::Number(x.clone())).with(
        "y",
        Json::Number(y.clone()),
    ).object();
    json_pretty(
        &Fields::new().with("tabId", Json::unsigned(tab)).with("point", point).with(
            "scrollX",
            Json::Number(dx.clone()),
        ).with("scrollY", Json::Number(dy.clone())).with("visibleCursor", Json::Bool(true)).object(),
    )
}

/// That a screenshot was saved.
pub open spec fn screenshot_text(path: Seq<u8>, size: nat) -> Seq<char> {
    "screenshot: "@ + lossy(path) + "\nbytes: "@ + decimal(size)
}

/// The exec form of [`screenshot_text`].
pub fn screenshot_report(path: &Vec<u8>, size: usize) -> (text: String)
    ensures
        text@ == screenshot_text(path@, size as nat),
{
    let mut text = "screenshot: ".to_owned();
    text.append(&path_text(path));
    text.append("\nbytes: ");
    text.append(&decimal_text(size as u128));
    text
}

/// That a download is complete.
pub open spec fn download_text(path: Seq<char>, size: u64, authorized: bool) -> Seq<char> {
    "download complete: "@ + path + "\nbytes: "@ + decimal(size as nat)
        + "\nsource URL authorized: "@ + bool_word(authorized)
}

/// The exec form of [`download_text`].
pub fn download_report(path: &str, size: u64, authorized: bool) -> (text: String)
    ensures
        text@ == download_text(path@, size, authorized),
{
    let mut text = "download complete: ".to_owned();
    text.append(path);
    text.append("\nbytes: ");
    text.append(&decimal_text(size as u128));
    text.append("\nsource URL authorized: ");
    text.append(bool_text(authorized));
    text
}

/// The text of a launch names the socket, the task, the tab and the directory,
/// and tells the page as it is.
pub proof fn law_launch_is_told(
    config: ConfigView,
    socket: Seq<u8>,
    tab: u64,
    identity: JsonView,
)
    ensures
        ({
            let text = launch_text(config, socket, tab, identity);
            &&& contains_text(text, "Codex in-app browser ready\nsocket: "@ + lossy(socket))
            &&& contains_text(text, "\ntask: "@ + config.session_id)
            &&& contains_text(text, "\ntab: "@ + decimal(tab as nat))
            &&& contains_text(text, "\ndownloads: "@ + lossy(config.download_dir))
            &&& contains_text(text, "\npage: "@ + compact(identity))
        }),
{
    broadcast use crate::text::group_contains;

}

/// The text of a status names the browser as it calls itself, or else by its
/// usual name, the connection, and what the configuration says.
pub proof fn law_status_is_told(
    config: ConfigView,
    info: JsonView,
    socket: Seq<u8>,
    turn: Seq<char>,
    tabs: nat,
)
    ensures
        ({
            let text = status_text(config, info, socket, turn, tabs);
            let name = match field(info, "name"@) {
                Some(JsonView::Text(name)) => name,
                _ => "Codex in-app browser"@,
            };
            &&& contains_text(text, "connected: true\nbackend: "@ + name)
            &&& contains_text(text, "\nsocket: "@ + lossy(socket))
            &&& contains_text(text, "\ntask: "@ + config.session_id)
            &&& contains_text(text, "\nturn: "@ + turn)
            &&& contains_text(text, "\ntabs: "@ + decimal(tabs))
            &&& contains_text(text, "\ndownloads: "@ + lossy(config.download_dir))
            &&& contains_text(text, "\nscreenshots: "@ + lossy(config.screenshot_dir))
            &&& contains_text(text, "\nallowed hosts: "@ + join(config.allowed_hosts, ", "@))
        }),
{
    broadcast use crate::text::group_contains;

}

/// The texts of what was done name what it was done with: the point and the tab
/// of the cursor; the number of characters, the selector and whether they were
/// submitted; the place and the size of a screenshot; and those of a download,
/// with whether its source was allowed.
pub proof fn law_done_is_told(
    x: NumberView,
    y: NumberView,
    tab: u64,
    selector: Seq<char>,
    n: nat,
    yes: bool,
    path: Seq<u8>,
    place: Seq<char>,
    size: u64,
)
    ensures
        contains_text(
            cursor_text(x, y, tab),
            "moved visible Codex cursor to ("@ + tenths(x),
        ),
        contains_text(cursor_text(x, y, tab), ", "@ + tenths(y)),
        contains_text(cursor_text(x, y, tab), ") in tab "@ + decimal(tab as nat)),
        contains_text(type_text_done(selector, n, yes), "typed "@ + decimal(n)),
        contains_text(type_text_done(selector, n, yes), " characters into "@ + selector),
        contains_text(
            type_text_done(selector, n, yes),
            "; submitted: "@ + if yes {
                "true"@
            } else {
                "false"@
            },
        ),
        contains_text(screenshot_text(path, n), "screenshot: "@ + lossy(path)),
        contains_text(screenshot_text(path, n), "\nbytes: "@ + decimal(n)),
        contains_text(download_text(place, size, yes), "download complete: "@ + place),
        contains_text(download_text(place, size, yes), "\nbytes: "@ + decimal(size as nat)),
        contains_text(
            download_text(place, size, yes),
            "\nsource URL authorized: "@ + if yes {
                "true"@
            } else {
                "false"@
            },
        ),
{
    broadcast use crate::text::group_contains;

}

/// What is told of a click and of a choice is a document with what the page
/// found or chose, the tab, and that the cursor was seen.
pub proof fn law_element_is_told(value: JsonView, tab: u64)
    ensures
        exists|d: JsonView|
            click_text(value, tab) == #[trigger] pretty(d) && field(d, "clicked"@) == Some(value)
                && field(d, "tabId"@) == Some(count(tab)) && field(d, "visibleCursor"@) == Some(
                JsonView::Bool(true),
            ),
        exists|d: JsonView|
            select_text(value, tab) == #[trigger] pretty(d) && field(d, "selected"@) == Some(value)
                && field(d, "tabId"@) == Some(count(tab)) && field(d, "visibleCursor"@) == Some(
                JsonView::Bool(true),
            ),
{
    broadcast use crate::json::lemma_last_field;

    reveal_strlit("clicked");
    assert("clicked"@.len() == 7);
    reveal_strlit("selected");
    assert("selected"@.len() == 8);
    reveal_strlit("tabId");
    assert("tabId"@.len() == 5);
    reveal_strlit("visibleCursor");
    assert("visibleCursor"@.len() == 13);
    let clicked = object(
        no_fields().push(("clicked"@, value)).push(("tabId"@, count(tab))).push(
            ("visibleCursor"@, JsonView::Bool(true)),
        ),
    );
    let selected = object(
        no_fields().push(("selected"@, value)).push(("tabId"@, count(tab))).push(
            ("visibleCursor"@, JsonView::Bool(true)),
        ),
    );
    assert(click_text(value, tab) == pretty(clicked));
    assert(field(clicked, "clicked"@) == Some(value));
    assert(select_text(value, tab) == pretty(selected));
    assert(field(selected, "selected"@) == Some(value));
}

/// What is told of a checkable element is a document with its state, its
/// selector and the tab.
pub proof fn law_state_is_told(checked: bool, selector: Seq<char>, tab: u64)
    ensures
        exists|d: JsonView|
            checked_text(checked, selector, tab) == #[trigger] pretty(d) && field(d, "checked"@)
                == Some(JsonView::Bool(checked)) && field(d, "selector"@) == Some(
                JsonView::Text(selector),
            ) && field(d, "tabId"@) == Some(count(tab)) && field(d, "visibleCursor"@) == Some(
                JsonView::Bool(true),
            ),
{
    broadcast use crate::json::lemma_last_field;

    reveal_strlit("checked");
    assert("checked"@.len() == 7);
    reveal_strlit("selector");
    assert("selector"@.len() == 8);
    reveal_strlit("tabId");
    assert("tabId"@.len() == 5);
    reveal_strlit("visibleCursor");
    assert("visibleCursor"@.len() == 13);
    let d = object(
        no_fields().push(("checked"@, JsonView::Bool(checked))).push(
            ("selector"@, words(selector)),
        ).push(("tabId"@, count(tab))).push(("visibleCursor"@, JsonView::Bool(true))),
    );
    assert(checked_text(checked, selector, tab) == pretty(d));
    assert(field(d, "checked"@) == Some(JsonView::Bool(checked)));
    assert(field(d, "selector"@) == Some(JsonView::Text(selector)));
}

/// What is told of a scroll is a document with the tab, the point, and the
/// distances, each under its own name.
pub proof fn law_scroll_is_told(
    tab: u64,
    x: NumberView,
    y: NumberView,
    dx: NumberView,
    dy: NumberView,
)
    ensures
        exists|d: JsonView|
            scroll_text(tab, x, y, dx, dy) == #[trigger] pretty(d) && field(d, "tabId"@) == Some(
                count(tab),
            ) && (field(d, "point"@) matches Some(p) && field(p, "x"@) == Some(JsonView::Number(x))
                && field(p, "y"@) == Some(JsonView::Number(y))) && field(d, "scrollX"@) == Some(
                JsonView::Number(dx),
            ) && field(d, "scrollY"@) == Some(JsonView::Number(dy)) && field(d, "visibleCursor"@)
                == Some(JsonView::Bool(true)),
{
    broadcast use crate::json::lemma_last_field;

    reveal_strlit("x");
    assert("x"@.len() == 1);
    reveal_strlit("y");
    assert("y"@.len() == 1);
    reveal_strlit("tabId");
    assert("tabId"@.len() == 5);
    reveal_strlit("point");
    assert("point"@.len() == 5);
    reveal_strlit("scrollX");
    assert("scrollX"@.len() == 7);
    reveal_strlit("scrollY");
    assert("scrollY"@.len() == 7);
    reveal_strlit("visibleCursor");
    assert("visibleCursor"@.len() == 13);
    assert("x"@[0] != "y"@[0]);
    assert("tabId"@[0] != "point"@[0]);
    assert("scrollX"@[6] != "scrollY"@[6]);
    let p = object(
        no_fields().push(("x"@, JsonView::Number(x))).push(("y"@, JsonView::Number(y))),
    );
    let d = object(
        no_fields().push(("tabId"@, count(tab))).push(("point"@, p)).push(
            ("scrollX"@, JsonView::Number(dx)),
        ).push(("scrollY"@, JsonView::Number(dy))).push(("visibleCursor"@, JsonView::Bool(true))),
    );
    assert(scroll_text(tab, x, y, dx, dy) == pretty(d));
    assert(field(d, "point"@) == Some(p));
    assert(field(p, "x"@) == Some(JsonView::Number(x)));
    assert(field(p, "y"@) == Some(JsonView::Number(y)));
    assert(field(d, "tabId"@) == Some(count(tab)));
    assert(field(d, "scrollX"@) == Some(JsonView::Number(dx)));
}

} // verus!
