use rust_browser_control::error::ErrorOf;
use rust_browser_control::json::{json_text, parse_json, Json};
use rust_browser_control::reply::{
    evaluate, flag, image_from_value, judge_image, locate, number_field, point_from_value,
};

fn read(text: &str) -> Json {
    parse_json(text.as_bytes()).unwrap()
}

#[test]
fn the_value_of_a_script_is_read() {
    assert_eq!(
        evaluate(Ok(read("{\"result\":{\"type\":\"string\",\"value\":\"v\"}}"))),
        Ok(Json::text("v"))
    );
    assert_eq!(evaluate(Ok(read("{\"result\":{\"type\":\"undefined\"}}"))), Ok(Json::Null));
    assert_eq!(evaluate(Ok(read("{}"))), Ok(Json::Null));
    assert_eq!(
        evaluate(Ok(read("{\"result\":{\"value\":1},\"exceptionDetails\":{\"text\":\"Uncaught\"}}")))
            .unwrap_err()
            .message(),
        "JavaScript evaluation failed: {\"text\":\"Uncaught\"}"
    );
    assert_eq!(evaluate(Err(ErrorOf::NoTabId)), Err(ErrorOf::NoTabId));
}

#[test]
fn an_element_is_found_only_if_the_page_says_so() {
    let found = locate(Ok(read("{\"result\":{\"value\":{\"ok\":true,\"x\":1}}}"))).unwrap();
    assert_eq!(json_text(&found), "{\"ok\":true,\"x\":1}");
    assert_eq!(
        locate(Ok(read("{\"result\":{\"value\":{\"ok\":false,\"reason\":\"disabled\"}}}")))
            .unwrap_err()
            .message(),
        "element not found or not clickable: {\"ok\":false,\"reason\":\"disabled\"}"
    );
    assert_eq!(
        locate(Ok(read("{}"))).unwrap_err().message(),
        "element not found or not clickable: null"
    );
    assert_eq!(
        locate(Ok(read("{\"result\":{\"value\":{\"ok\":1}}}"))).unwrap_err().message(),
        "element not found or not clickable: {\"ok\":1}"
    );
    assert!(flag(&read("{\"ok\":true}"), "ok"));
    assert!(!flag(&read("{\"ok\":\"true\"}"), "ok"));
}

#[test]
fn a_point_has_two_numbers() {
    let (x, y) = point_from_value(&read("{\"x\":3,\"y\":2.5}")).unwrap();
    assert_eq!(x.to_string(), "3.0");
    assert_eq!(y.to_string(), "2.5");
    assert_eq!(
        point_from_value(&read("{\"y\":2.5}")).unwrap_err().message(),
        "point has no numeric x coordinate: {\"y\":2.5}"
    );
    assert_eq!(
        point_from_value(&read("{\"x\":1,\"y\":\"2\"}")).unwrap_err().message(),
        "point has no numeric y coordinate: {\"x\":1,\"y\":\"2\"}"
    );
    assert!(number_field(&read("{\"x\":null}"), "x").is_none());
}

#[test]
fn the_data_of_a_screenshot_is_decoded() {
    assert_eq!(
        image_from_value(&read("{\"data\":\"aGVsbG8gd29ybGR+Cg==\"}")),
        Ok(b"hello world~\n".to_vec())
    );
    assert_eq!(image_from_value(&read("{\"data\":\"\"}")), Ok(vec![]));
    assert_eq!(image_from_value(&read("{\"data\":\"aGVsbG8\"}")), Err(ErrorOf::BadImage));
    assert_eq!(image_from_value(&read("{\"data\":\"a_-b\"}")), Err(ErrorOf::BadImage));
    assert_eq!(image_from_value(&read("{\"data\":7}")), Err(ErrorOf::NoImage));
    assert_eq!(image_from_value(&read("{}")), Err(ErrorOf::NoImage));
    assert_eq!(judge_image(Some(vec![1])), Ok(vec![1]));
    assert_eq!(judge_image(None).unwrap_err().message(), "decode screenshot");
    assert_eq!(
        image_from_value(&read("{}")).unwrap_err().message(),
        "CDP screenshot returned no data"
    );
}
