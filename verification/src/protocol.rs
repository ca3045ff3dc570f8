//! What the controller says over the socket: the calls of the browser backend
//! and the commands for pages, each with its name and parameters.
use crate::json::{
    count, field, no_fields, number_view, object, Fields, Json, JsonView, NumberView,
};
use vstd::prelude::*;

verus! {

broadcast use vstd::string::group_string_axioms;

/// The most bytes that a frame may hold behind its header.
pub const MAX_BACKEND_FRAME_BYTES: usize = 64 * 1024 * 1024;

/// A command of the Chrome DevTools Protocol. `T` is the type of its texts and
/// `N` that of its coordinates.
#[derive(Debug, PartialEq)]
pub enum CommandOf<T, N> {
    Navigate(T),
    Evaluate(T),
    MouseMoved { x: N, y: N },
    MousePressed { x: N, y: N },
    MouseReleased { x: N, y: N },
    Key { kind: T, key: T, code: T, virtual_key: u16, modifiers: u8 },
    LayoutMetrics,
    ScrollGesture { x: N, y: N, dx: N, dy: N },
    CaptureScreenshot,
    DownloadBehavior(T),
    FetchEnable,
    FetchDisable,
    ContinueResponse(T),
}

/// A call of the browser backend.
#[derive(Debug, PartialEq)]
pub enum CallOf<T, N> {
    GetInfo,
    GetTabs,
    GetUserTabs,
    ClaimUserTab(u64),
    CreateTab,
    Attach(u64),
    MoveMouse { tab: u64, x: N, y: N },
    AllowDownload { tab: u64, url: T },
    Cdp { tab: u64, command: CommandOf<T, N> },
}

/// A command as programs build it.
pub type Command = CommandOf<String, serde_json::Number>;

/// A call as programs build it.
pub type Call = CallOf<String, serde_json::Number>;

/// What a command says.
pub type CommandView = CommandOf<Seq<char>, NumberView>;

/// What a call says.
pub type CallView = CallOf<Seq<char>, NumberView>;

impl View for CommandOf<String, serde_json::Number> {
    type V = CommandOf<Seq<char>, NumberView>;

    open spec fn view(&self) -> CommandOf<Seq<char>, NumberView> {
        match *self {
            CommandOf::Navigate(url) => CommandOf::Navigate(url@),
            CommandOf::Evaluate(script) => CommandOf::Evaluate(script@),
            CommandOf::MouseMoved { x, y } => CommandOf::MouseMoved {
                x: number_view(x),
                y: number_view(y),
            },
            CommandOf::MousePressed { x, y } => CommandOf::MousePressed {
                x: number_view(x),
                y: number_view(y),
            },
            CommandOf::MouseReleased { x, y } => CommandOf::MouseReleased {
                x: number_view(x),
                y: number_view(y),
            },
            CommandOf::Key { kind, key, code, virtual_key, modifiers } => CommandOf::Key {
                kind: kind@,
                key: key@,
                code: code@,
                virtual_key,
                modifiers,
            },
            CommandOf::LayoutMetrics => CommandOf::LayoutMetrics,
            CommandOf::ScrollGesture { x, y, dx, dy } => CommandOf::ScrollGesture {
                x: number_view(x),
                y: number_view(y),
                dx: number_view(dx),
                dy: number_view(dy),
            },
            CommandOf::CaptureScreenshot => CommandOf::CaptureScreenshot,
            CommandOf::DownloadBehavior(path) => CommandOf::DownloadBehavior(path@),
            CommandOf::FetchEnable => CommandOf::FetchEnable,
            CommandOf::FetchDisable => CommandOf::FetchDisable,
            CommandOf::ContinueResponse(id) => CommandOf::ContinueResponse(id@),
        }
    }
}

impl View for CallOf<String, serde_json::Number> {
    type V = CallOf<Seq<char>, NumberView>;

    open spec fn view(&self) -> CallOf<Seq<char>, NumberView> {
        match *self {
            CallOf::GetInfo => CallOf::GetInfo,
            CallOf::GetTabs => CallOf::GetTabs,
            CallOf::GetUserTabs => CallOf::GetUserTabs,
            CallOf::ClaimUserTab(id) => CallOf::ClaimUserTab(id),
            CallOf::CreateTab => CallOf::CreateTab,
            CallOf::Attach(id) => CallOf::Attach(id),
            CallOf::MoveMouse { tab, x, y } => CallOf::MoveMouse {
                tab,
                x: number_view(x),
                y: number_view(y),
            },
            CallOf::AllowDownload { tab, url } => CallOf::AllowDownload { tab, url: url@ },
            CallOf::Cdp { tab, command } => CallOf::Cdp { tab, command: command@ },
        }
    }
}

/// The document that is a text.
pub open spec fn words(text: Seq<char>) -> JsonView {
    JsonView::Text(text)
}

/// The protocol's name of a command.
pub open spec fn command_name(command: CommandView) -> Seq<char> {
    match command {
        CommandOf::Navigate(_) => "Page.navigate"@,
        CommandOf::Evaluate(_) => "Runtime.evaluate"@,
        CommandOf::MouseMoved { .. } => "Input.dispatchMouseEvent"@,
        CommandOf::MousePressed { .. } => "Input.dispatchMouseEvent"@,
        CommandOf::MouseReleased { .. } => "Input.dispatchMouseEvent"@,
        CommandOf::Key { .. } => "Input.dispatchKeyEvent"@,
        CommandOf::LayoutMetrics => "Page.getLayoutMetrics"@,
        CommandOf::ScrollGesture { .. } => "Input.synthesizeScrollGesture"@,
        CommandOf::CaptureScreenshot => "Page.captureScreenshot"@,
        CommandOf::DownloadBehavior(_) => "Browser.setDownloadBehavior"@,
        CommandOf::FetchEnable => "Fetch.enable"@,
        CommandOf::FetchDisable => "Fetch.disable"@,
        CommandOf::ContinueResponse(_) => "Fetch.continueResponse"@,
    }
}

/// The parameters of a command.
pub open spec fn command_params(command: CommandView) -> JsonView {
    match command {
        CommandOf::Navigate(url) => object(no_fields().push(("url"@, words(url)))),
        CommandOf::Evaluate(script) => object(
            no_fields().push(("expression"@, words(script)))
                .push(("returnByValue"@, JsonView::Bool(true)))
                .push(("awaitPromise"@, JsonView::Bool(true)))
                .push(("userGesture"@, JsonView::Bool(true))),
        ),
        CommandOf::MouseMoved { x, y } => object(
            no_fields().push(("type"@, words("mouseMoved"@))).push(("x"@, JsonView::Number(x)))
                .push(("y"@, JsonView::Number(y))).push(("button"@, words("none"@)))
                .push(("buttons"@, count(0))),
        ),
        CommandOf::MousePressed { x, y } => object(
            no_fields().push(("type"@, words("mousePressed"@))).push(("x"@, JsonView::Number(x)))
                .push(("y"@, JsonView::Number(y))).push(("button"@, words("left"@)))
                .push(("buttons"@, count(1))).push(("clickCount"@, count(1))),
        ),
        CommandOf::MouseReleased { x, y } => object(
            no_fields().push(("type"@, words("mouseReleased"@))).push(("x"@, JsonView::Number(x)))
                .push(("y"@, JsonView::Number(y))).push(("button"@, words("left"@)))
                .push(("buttons"@, count(0))).push(("clickCount"@, count(1))),
        ),
        CommandOf::Key { kind, key, code, virtual_key, modifiers } => object(
            no_fields().push(("type"@, words(kind))).push(("key"@, words(key)))
                .push(("code"@, words(code)))
                .push(("windowsVirtualKeyCode"@, count(virtual_key as u64)))
                .push(("nativeVirtualKeyCode"@, count(virtual_key as u64)))
                .push(("modifiers"@, count(modifiers as u64))),
        ),
        CommandOf::LayoutMetrics => object(no_fields()),
        CommandOf::ScrollGesture { x, y, dx, dy } => object(
            no_fields().push(("x"@, JsonView::Number(x))).push(("y"@, JsonView::Number(y)))
                .push(("xDistance"@, JsonView::Number(dx)))
                .push(("yDistance"@, JsonView::Number(dy)))
                .push(("gestureSourceType"@, words("mouse"@)))
                .push(("preventFling"@, JsonView::Bool(true))).push(("speed"@, count(8000))),
        ),
        CommandOf::CaptureScreenshot => object(
            no_fields().push(("format"@, words("png"@)))
                .push(("fromSurface"@, JsonView::Bool(true))),
        ),
        CommandOf::DownloadBehavior(path) => object(
            no_fields().push(("behavior"@, words("allow"@))).push(("downloadPath"@, words(path)))
                .push(("eventsEnabled"@, JsonView::Bool(true))),
        ),
        CommandOf::FetchEnable => object(
            no_fields().push((
                    "patterns"@,
                    JsonView::Array(
                        seq![
                            object(
                                no_fields().push(("requestStage"@, words("Response"@)))
                                    .push(("resourceType"@, words("Document"@))),
                            ),
                        ],
                    ),
                )),
        ),
        CommandOf::FetchDisable => object(no_fields()),
        CommandOf::ContinueResponse(id) => object(no_fields().push(("requestId"@, words(id)))),
    }
}

/// The backend's name of a call.
pub open spec fn call_method(call: CallView) -> Seq<char> {
    match call {
        CallOf::GetInfo => "getInfo"@,
        CallOf::GetTabs => "getTabs"@,
        CallOf::GetUserTabs => "getUserTabs"@,
        CallOf::ClaimUserTab(_) => "claimUserTab"@,
        CallOf::CreateTab => "createTab"@,
        CallOf::Attach(_) => "attach"@,
        CallOf::MoveMouse { .. } => "moveMouse"@,
        CallOf::AllowDownload { .. } => "allowDownload"@,
        CallOf::Cdp { .. } => "executeCdp"@,
    }
}

/// The parameters of a call.
pub open spec fn call_params(call: CallView) -> JsonView {
    match call {
        CallOf::GetInfo => object(no_fields()),
        CallOf::GetTabs => object(no_fields()),
        CallOf::GetUserTabs => object(no_fields()),
        CallOf::ClaimUserTab(id) => object(no_fields().push(("tabId"@, count(id)))),
        CallOf::CreateTab => object(no_fields()),
        CallOf::Attach(id) => object(no_fields().push(("tabId"@, count(id)))),
        CallOf::MoveMouse { tab, x, y } => object(
            no_fields().push(("tabId"@, count(tab))).push(("x"@, JsonView::Number(x)))
                .push(("y"@, JsonView::Number(y))).push(("waitForArrival"@, JsonView::Bool(true))),
        ),
        CallOf::AllowDownload { tab, url } => object(
            no_fields().push(("tabId"@, count(tab))).push(("url"@, words(url))),
        ),
        CallOf::Cdp { tab, command } => object(
            no_fields().push(("target"@, object(no_fields().push(("tabId"@, count(tab))))))
                .push(("method"@, words(command_name(command))))
                .push(("commandParams"@, command_params(command))),
        ),
    }
}

impl CommandOf<String, serde_json::Number> {
    /// The protocol's name of the command.
    pub fn name(&self) -> (name: &'static str)
        ensures
            name@ == command_name(self@),
    {
        match self {
            CommandOf::Navigate(_) => "Page.navigate",
            CommandOf::Evaluate(_) => "Runtime.evaluate",
            CommandOf::MouseMoved { .. } => "Input.dispatchMouseEvent",
            CommandOf::MousePressed { .. } => "Input.dispatchMouseEvent",
            CommandOf::MouseReleased { .. } => "Input.dispatchMouseEvent",
            CommandOf::Key { .. } => "Input.dispatchKeyEvent",
            CommandOf::LayoutMetrics => "Page.getLayoutMetrics",
            CommandOf::ScrollGesture { .. } => "Input.synthesizeScrollGesture",
            CommandOf::CaptureScreenshot => "Page.captureScreenshot",
            CommandOf::DownloadBehavior(_) => "Browser.setDownloadBehavior",
            CommandOf::FetchEnable => "Fetch.enable",
            CommandOf::FetchDisable => "Fetch.disable",
            CommandOf::ContinueResponse(_) => "Fetch.continueResponse",
        }
    }

    /// The parameters of the command.
    pub fn params(&self) -> (params: Json)
        ensures
            params@ == command_params(self@),
    {
        match self {
            CommandOf::Navigate(url) => Fields::new().with("url", Json::text(url)).object(),
            CommandOf::Evaluate(script) => Fields::new().with(
                "expression",
                Json::text(script),
            ).with("returnByValue", Json::Bool(true)).with("awaitPromise", Json::Bool(true)).with(
                "userGesture",
                Json::Bool(true),
            ).object(),
            CommandOf::MouseMoved { x, y } => Fields::new().with(
                "type",
                Json::text("mouseMoved"),
            ).with("x", Json::Number(x.clone())).with("y", Json::Number(y.clone())).with(
                "button",
                Json::text("none"),
            ).with("buttons", Json::unsigned(0)).object(),
            CommandOf::MousePressed { x, y } => Fields::new().with(
                "type",
                Json::text("mousePressed"),
            ).with("x", Json::Number(x.clone())).with("y", Json::Number(y.clone())).with(
                "button",
                Json::text("left"),
            ).with("buttons", Json::unsigned(1)).with("clickCount", Json::unsigned(1)).object(),
            CommandOf::MouseReleased { x, y } => Fields::new().with(
                "type",
                Json::text("mouseReleased"),
            ).with("x", Json::Number(x.clone())).with("y", Json::Number(y.clone())).with(
                "button",
                Json::text("left"),
            ).with("buttons", Json::unsigned(0)).with("clickCount", Json::unsigned(1)).object(),
            CommandOf::Key { kind, key, code, virtual_key, modifiers } => Fields::new().with(
                "type",
                Json::text(kind),
            ).with("key", Json::text(key)).with("code", Json::text(code)).with(
                "windowsVirtualKeyCode",
                Json::unsigned(*virtual_key as u64),
            ).with("nativeVirtualKeyCode", Json::unsigned(*virtual_key as u64)).with(
                "modifiers",
                Json::unsigned(*modifiers as u64),
            ).object(),
            CommandOf::LayoutMetrics => Fields::new().object(),
            CommandOf::ScrollGesture { x, y, dx, dy } => Fields::new().with(
                "x",
                Json::Number(x.clone()),
            ).with("y", Json::Number(y.clone())).with("xDistance", Json::Number(dx.clone())).with(
                "yDistance",
                Json::Number(dy.clone()),
            ).with("gestureSourceType", Json::text("mouse")).with(
                "preventFling",
                Json::Bool(true),
            ).with("speed", Json::unsigned(8000)).object(),
            CommandOf::CaptureScreenshot => Fields::new().with("format", Json::text("png")).with(
                "fromSurface",
                Json::Bool(true),
            ).object(),
            CommandOf::DownloadBehavior(path) => Fields::new().with(
                "behavior",
                Json::text("allow"),
            ).with("downloadPath", Json::text(path)).with(
                "eventsEnabled",
                Json::Bool(true),
            ).object(),
            CommandOf::FetchEnable => {
                let pattern = Fields::new().with("requestStage", Json::text("Response")).with(
                    "resourceType",
                    Json::text("Document"),
                ).object();
                Fields::new().with("patterns", Json::single(pattern)).object()
            },
            CommandOf::FetchDisable => Fields::new().object(),
            CommandOf::ContinueResponse(id) => Fields::new().with(
                "requestId",
                Json::text(id),
            ).object(),
        }
    }
}

impl CallOf<String, serde_json::Number> {
    /// The backend's name of the call.
    pub fn method(&self) -> (method: &'static str)
        ensures
            method@ == call_method(self@),
    {
        match self {
            CallOf::GetInfo => "getInfo",
            CallOf::GetTabs => "getTabs",
            CallOf::GetUserTabs => "getUserTabs",
            CallOf::ClaimUserTab(_) => "claimUserTab",
            CallOf::CreateTab => "createTab",
            CallOf::Attach(_) => "attach",
            CallOf::MoveMouse { .. } => "moveMouse",
            CallOf::AllowDownload { .. } => "allowDownload",
            CallOf::Cdp { .. } => "executeCdp",
        }
    }

    /// The parameters of the call.
    pub fn params(&self) -> (params: Json)
        ensures
            params@ == call_params(self@),
    {
        match self {
            CallOf::GetInfo => Fields::new().object(),
            CallOf::GetTabs => Fields::new().object(),
            CallOf::GetUserTabs => Fields::new().object(),
            CallOf::ClaimUserTab(id) => Fields::new().with("tabId", Json::unsigned(*id)).object(),
            CallOf::CreateTab => Fields::new().object(),
            CallOf::Attach(id) => Fields::new().with("tabId", Json::unsigned(*id)).object(),
            CallOf::MoveMouse { tab, x, y } => Fields::new().with(
                "tabId",
                Json::unsigned(*tab),
            ).with("x", Json::Number(x.clone())).with("y", Json::Number(y.clone())).with(
                "waitForArrival",
                Json::Bool(true),
            ).object(),
            CallOf::AllowDownload { tab, url } => Fields::new().with(
                "tabId",
                Json::unsigned(*tab),
            ).with("url", Json::text(url)).object(),
            CallOf::Cdp { tab, command } => Fields::new().with(
                "target",
                Fields::new().with("tabId", Json::unsigned(*tab)).object(),
            ).with("method", Json::text(command.name())).with(
                "commandParams",
                command.params(),
            ).object(),
        }
    }
}

/// Whether an object says this under a key.
pub open spec fn tells(object: JsonView, key: Seq<char>, value: JsonView) -> bool {
    field(object, key) == Some(value)
}

/// A command of the mouse is one at its point: the cursor moves there with no
/// button down; the left button goes down there, once, and comes up there.
pub proof fn law_mouse_commands(x: NumberView, y: NumberView)
    ensures
        ({
            let moved = command_params(CommandOf::MouseMoved { x, y });
            let pressed = command_params(CommandOf::MousePressed { x, y });
            let released = command_params(CommandOf::MouseReleased { x, y });
            &&& tells(moved, "type"@, JsonView::Text("mouseMoved"@))
            &&& tells(moved, "x"@, JsonView::Number(x)) && tells(moved, "y"@, JsonView::Number(y))
            &&& tells(moved, "button"@, JsonView::Text("none"@))
            &&& tells(moved, "buttons"@, count(0))
            &&& tells(pressed, "type"@, JsonView::Text("mousePressed"@))
            &&& tells(pressed, "x"@, JsonView::Number(x))
            &&& tells(pressed, "y"@, JsonView::Number(y))
            &&& tells(pressed, "button"@, JsonView::Text("left"@))
            &&& tells(pressed, "buttons"@, count(1))
            &&& tells(pressed, "clickCount"@, count(1))
            &&& tells(released, "type"@, JsonView::Text("mouseReleased"@))
            &&& tells(released, "x"@, JsonView::Number(x))
            &&& tells(released, "y"@, JsonView::Number(y))
            &&& tells(released, "button"@, JsonView::Text("left"@))
            &&& tells(released, "buttons"@, count(0))
            &&& tells(released, "clickCount"@, count(1))
        }),
{
    broadcast use crate::json::lemma_last_field;

    reveal_strlit("type");
    assert("type"@.len() == 4);
    reveal_strlit("x");
    assert("x"@.len() == 1);
    reveal_strlit("y");
    assert("y"@.len() == 1);
    reveal_strlit("button");
    assert("button"@.len() == 6);
    reveal_strlit("buttons");
    assert("buttons"@.len() == 7);
    reveal_strlit("clickCount");
    assert("clickCount"@.len() == 10);
    assert("x"@[0] != "y"@[0]);
}

/// A command of the keyboard names its event and its key, with the key's code
/// both for the page and for the system, and the keys that are held with it.
pub proof fn law_key_command(
    kind: Seq<char>,
    key: Seq<char>,
    code: Seq<char>,
    virtual_key: u16,
    modifiers: u8,
)
    ensures
        ({
            let params = command_params(
                CommandOf::Key { kind, key, code, virtual_key, modifiers },
            );
            &&& tells(params, "type"@, JsonView::Text(kind))
            &&& tells(params, "key"@, JsonView::Text(key))
            &&& tells(params, "code"@, JsonView::Text(code))
            &&& tells(params, "windowsVirtualKeyCode"@, count(virtual_key as u64))
            &&& tells(params, "nativeVirtualKeyCode"@, count(virtual_key as u64))
            &&& tells(params, "modifiers"@, count(modifiers as u64))
        }),
{
    broadcast use crate::json::lemma_last_field;

    reveal_strlit("type");
    assert("type"@.len() == 4);
    reveal_strlit("key");
    assert("key"@.len() == 3);
    reveal_strlit("code");
    assert("code"@.len() == 4);
    reveal_strlit("windowsVirtualKeyCode");
    assert("windowsVirtualKeyCode"@.len() == 21);
    reveal_strlit("nativeVirtualKeyCode");
    assert("nativeVirtualKeyCode"@.len() == 20);
    reveal_strlit("modifiers");
    assert("modifiers"@.len() == 9);
    assert("type"@[0] != "code"@[0]);
}

/// A scroll is one at its point, by its two distances.
pub proof fn law_scroll_command(x: NumberView, y: NumberView, dx: NumberView, dy: NumberView)
    ensures
        ({
            let params = command_params(CommandOf::ScrollGesture { x, y, dx, dy });
            &&& tells(params, "x"@, JsonView::Number(x)) && tells(params, "y"@, JsonView::Number(y))
            &&& tells(params, "xDistance"@, JsonView::Number(dx))
            &&& tells(params, "yDistance"@, JsonView::Number(dy))
            &&& tells(params, "gestureSourceType"@, JsonView::Text("mouse"@))
            &&& tells(params, "preventFling"@, JsonView::Bool(true))
            &&& tells(params, "speed"@, count(8000))
        }),
{
    broadcast use crate::json::lemma_last_field;

    reveal_strlit("x");
    assert("x"@.len() == 1);
    reveal_strlit("y");
    assert("y"@.len() == 1);
    reveal_strlit("xDistance");
    assert("xDistance"@.len() == 9);
    reveal_strlit("yDistance");
    assert("yDistance"@.len() == 9);
    reveal_strlit("gestureSourceType");
    assert("gestureSourceType"@.len() == 17);
    reveal_strlit("preventFling");
    assert("preventFling"@.len() == 12);
    reveal_strlit("speed");
    assert("speed"@.len() == 5);
    assert("x"@[0] != "y"@[0]);
    assert("xDistance"@[0] != "yDistance"@[0]);
}

/// The other commands carry what they are given, whole: an address, a script
/// whose value comes back, a directory in which downloads are allowed, the id
/// of a response. Responses are held up where they are documents.
pub proof fn law_page_commands(text: Seq<char>)
    ensures
        ({
            let navigate = command_params(CommandOf::Navigate(text));
            let evaluate = command_params(CommandOf::Evaluate(text));
            let behavior = command_params(CommandOf::DownloadBehavior(text));
            let response = command_params(CommandOf::ContinueResponse(text));
            let capture = command_params(CommandOf::CaptureScreenshot);
            &&& tells(navigate, "url"@, JsonView::Text(text))
            &&& tells(evaluate, "expression"@, JsonView::Text(text))
            &&& tells(evaluate, "returnByValue"@, JsonView::Bool(true))
            &&& tells(evaluate, "awaitPromise"@, JsonView::Bool(true))
            &&& tells(evaluate, "userGesture"@, JsonView::Bool(true))
            &&& tells(behavior, "behavior"@, JsonView::Text("allow"@))
            &&& tells(behavior, "downloadPath"@, JsonView::Text(text))
            &&& tells(behavior, "eventsEnabled"@, JsonView::Bool(true))
            &&& tells(response, "requestId"@, JsonView::Text(text))
            &&& tells(capture, "format"@, JsonView::Text("png"@))
            &&& tells(capture, "fromSurface"@, JsonView::Bool(true))
        }),
        field(command_params(CommandOf::FetchEnable), "patterns"@) matches Some(
            JsonView::Array(patterns),
        ) && patterns.len() == 1 && tells(patterns[0], "requestStage"@, JsonView::Text("Response"@))
            && tells(patterns[0], "resourceType"@, JsonView::Text("Document"@)),
{
    broadcast use crate::json::lemma_last_field;

    reveal_strlit("expression");
    assert("expression"@.len() == 10);
    reveal_strlit("returnByValue");
    assert("returnByValue"@.len() == 13);
    reveal_strlit("awaitPromise");
    assert("awaitPromise"@.len() == 12);
    reveal_strlit("userGesture");
    assert("userGesture"@.len() == 11);
    reveal_strlit("behavior");
    assert("behavior"@.len() == 8);
    reveal_strlit("downloadPath");
    assert("downloadPath"@.len() == 12);
    reveal_strlit("eventsEnabled");
    assert("eventsEnabled"@.len() == 13);
    reveal_strlit("format");
    assert("format"@.len() == 6);
    reveal_strlit("fromSurface");
    assert("fromSurface"@.len() == 11);
    reveal_strlit("requestStage");
    assert("requestStage"@.len() == 12);
    reveal_strlit("resourceType");
    assert("resourceType"@.len() == 12);
    assert("requestStage"@[2] != "resourceType"@[2]);
    assert("awaitPromise"@[0] != "downloadPath"@[0]);
}

/// A call says which tab it is for, and what is to be done there: the cursor is
/// awaited at its point, a download is allowed from its URL, and a command goes
/// with its own name and parameters.
pub proof fn law_calls_are_addressed(
    tab: u64,
    x: NumberView,
    y: NumberView,
    url: Seq<char>,
    command: CommandView,
)
    ensures
        tells(call_params(CallOf::ClaimUserTab(tab)), "tabId"@, count(tab)),
        tells(call_params(CallOf::Attach(tab)), "tabId"@, count(tab)),
        ({
            let cursor = call_params(CallOf::MoveMouse { tab, x, y });
            let download = call_params(CallOf::AllowDownload { tab, url });
            let cdp = call_params(CallOf::Cdp { tab, command });
            &&& tells(cursor, "tabId"@, count(tab))
            &&& tells(cursor, "x"@, JsonView::Number(x)) && tells(cursor, "y"@, JsonView::Number(y))
            &&& tells(cursor, "waitForArrival"@, JsonView::Bool(true))
            &&& tells(download, "tabId"@, count(tab))
            &&& tells(download, "url"@, JsonView::Text(url))
            &&& (field(cdp, "target"@) matches Some(target) && tells(target, "tabId"@, count(tab)))
            &&& tells(cdp, "method"@, JsonView::Text(command_name(command)))
            &&& tells(cdp, "commandParams"@, command_params(command))
        }),
{
    broadcast use crate::json::lemma_last_field;

    reveal_strlit("tabId");
    assert("tabId"@.len() == 5);
    reveal_strlit("x");
    assert("x"@.len() == 1);
    reveal_strlit("y");
    assert("y"@.len() == 1);
    reveal_strlit("waitForArrival");
    assert("waitForArrival"@.len() == 14);
    reveal_strlit("url");
    assert("url"@.len() == 3);
    reveal_strlit("target");
    assert("target"@.len() == 6);
    reveal_strlit("method");
    assert("method"@.len() == 6);
    reveal_strlit("commandParams");
    assert("commandParams"@.len() == 13);
    assert("x"@[0] != "y"@[0]);
    assert("target"@[0] != "method"@[0]);
}

} // verus!
