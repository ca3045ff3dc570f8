use rust_browser_control::json::json_text;
use rust_browser_control::protocol::{Call, CallOf, Command, CommandOf};

fn number(x: f64) -> serde_json::Number {
    serde_json::Number::from_f64(x).unwrap()
}

fn shown(command: Command) -> (String, String) {
    (command.name().to_owned(), json_text(&command.params()))
}

fn called(call: Call) -> (String, String) {
    (call.method().to_owned(), json_text(&call.params()))
}

fn expected(name: &str, params: &str) -> (String, String) {
    let sorted: serde_json::Value = serde_json::from_str(params).unwrap();
    (name.to_owned(), serde_json::to_string(&sorted).unwrap())
}

#[test]
fn commands_have_the_names_and_parameters_of_the_protocol() {
    assert_eq!(
        shown(CommandOf::Navigate("https://a/".to_owned())),
        expected("Page.navigate", "{\"url\":\"https://a/\"}")
    );
    assert_eq!(
        shown(CommandOf::Evaluate("1+1".to_owned())),
        expected(
            "Runtime.evaluate",
            "{\"expression\":\"1+1\",\"returnByValue\":true,\"awaitPromise\":true,\"userGesture\":true}"
        )
    );
    assert_eq!(
        shown(CommandOf::MouseMoved { x: number(1.5), y: number(2.0) }),
        expected(
            "Input.dispatchMouseEvent",
            "{\"type\":\"mouseMoved\",\"x\":1.5,\"y\":2.0,\"button\":\"none\",\"buttons\":0}"
        )
    );
    assert_eq!(
        shown(CommandOf::MousePressed { x: number(1.5), y: number(2.0) }),
        expected(
            "Input.dispatchMouseEvent",
            "{\"type\":\"mousePressed\",\"x\":1.5,\"y\":2.0,\"button\":\"left\",\"buttons\":1,\"clickCount\":1}"
        )
    );
    assert_eq!(
        shown(CommandOf::MouseReleased { x: number(1.5), y: number(2.0) }),
        expected(
            "Input.dispatchMouseEvent",
            "{\"type\":\"mouseReleased\",\"x\":1.5,\"y\":2.0,\"button\":\"left\",\"buttons\":0,\"clickCount\":1}"
        )
    );
    assert_eq!(
        shown(CommandOf::Key {
            kind: "keyUp".to_owned(),
            key: "Enter".to_owned(),
            code: "Enter".to_owned(),
            virtual_key: 13,
            modifiers: 2,
        }),
        expected(
            "Input.dispatchKeyEvent",
            "{\"type\":\"keyUp\",\"key\":\"Enter\",\"code\":\"Enter\",\"windowsVirtualKeyCode\":13,\"nativeVirtualKeyCode\":13,\"modifiers\":2}"
        )
    );
    assert_eq!(shown(CommandOf::LayoutMetrics), expected("Page.getLayoutMetrics", "{}"));
    assert_eq!(
        shown(CommandOf::ScrollGesture {
            x: number(1.0),
            y: number(2.0),
            dx: number(-3.0),
            dy: number(-4.5),
        }),
        expected(
            "Input.synthesizeScrollGesture",
            "{\"x\":1.0,\"y\":2.0,\"xDistance\":-3.0,\"yDistance\":-4.5,\"gestureSourceType\":\"mouse\",\"preventFling\":true,\"speed\":8000}"
        )
    );
    assert_eq!(
        shown(CommandOf::CaptureScreenshot),
        expected("Page.captureScreenshot", "{\"format\":\"png\",\"fromSurface\":true}")
    );
    assert_eq!(
        shown(CommandOf::DownloadBehavior("/d".to_owned())),
        expected(
            "Browser.setDownloadBehavior",
            "{\"behavior\":\"allow\",\"downloadPath\":\"/d\",\"eventsEnabled\":true}"
        )
    );
    assert_eq!(
        shown(CommandOf::FetchEnable),
        expected(
            "Fetch.enable",
            "{\"patterns\":[{\"requestStage\":\"Response\",\"resourceType\":\"Document\"}]}"
        )
    );
    assert_eq!(shown(CommandOf::FetchDisable), expected("Fetch.disable", "{}"));
    assert_eq!(
        shown(CommandOf::ContinueResponse("r1".to_owned())),
        expected("Fetch.continueResponse", "{\"requestId\":\"r1\"}")
    );
}

#[test]
fn calls_have_the_names_and_parameters_of_the_backend() {
    assert_eq!(called(CallOf::GetInfo), expected("getInfo", "{}"));
    assert_eq!(called(CallOf::GetTabs), expected("getTabs", "{}"));
    assert_eq!(called(CallOf::GetUserTabs), expected("getUserTabs", "{}"));
    assert_eq!(called(CallOf::ClaimUserTab(3)), expected("claimUserTab", "{\"tabId\":3}"));
    assert_eq!(called(CallOf::CreateTab), expected("createTab", "{}"));
    assert_eq!(called(CallOf::Attach(4)), expected("attach", "{\"tabId\":4}"));
    assert_eq!(
        called(CallOf::MoveMouse { tab: 5, x: number(1.0), y: number(2.5) }),
        expected("moveMouse", "{\"tabId\":5,\"x\":1.0,\"y\":2.5,\"waitForArrival\":true}")
    );
    assert_eq!(
        called(CallOf::AllowDownload { tab: 5, url: "https://a/".to_owned() }),
        expected("allowDownload", "{\"tabId\":5,\"url\":\"https://a/\"}")
    );
    assert_eq!(
        called(CallOf::Cdp { tab: 6, command: CommandOf::Navigate("u".to_owned()) }),
        expected(
            "executeCdp",
            "{\"target\":{\"tabId\":6},\"method\":\"Page.navigate\",\"commandParams\":{\"url\":\"u\"}}"
        )
    );
}
