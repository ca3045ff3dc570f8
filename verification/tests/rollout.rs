use rust_browser_control::rollout::{
    entry_turn, is_rollout, latest_rollout, latest_turn_id, line_turn, lines_of,
};
use rust_browser_control::json::parse_json;

#[test]
fn reads_latest_turn_context() {
    let name = "rollout-test-task.jsonl";
    let content = "{\"type\":\"turn_context\",\"payload\":{\"turn_id\":\"old\"}}\n{\"type\":\"event_msg\"}\n{\"type\":\"turn_context\",\"payload\":{\"turn_id\":\"new\"}}\n";
    assert!(is_rollout(name, "test-task"));
    assert_eq!(latest_rollout(&vec![Some(1)]), Some(0));
    assert_eq!(latest_turn_id(content).as_deref(), Some("new"));
}

#[test]
fn files_of_other_sessions_are_left_alone() {
    assert!(!is_rollout("rollout-test-task.json", "test-task"));
    assert!(!is_rollout("rollout-other.jsonl", "test-task"));
    assert!(is_rollout("test-task.jsonl", "test-task"));
    assert!(is_rollout("x.jsonl", ""));
}

#[test]
fn the_latest_file_is_the_last_of_those_changed_last() {
    assert_eq!(latest_rollout(&vec![]), None);
    assert_eq!(latest_rollout(&vec![Some(5), Some(9), Some(7)]), Some(1));
    assert_eq!(latest_rollout(&vec![Some(9), Some(3), Some(9), Some(1)]), Some(2));
    assert_eq!(latest_rollout(&vec![None, Some(-1)]), Some(0));
    assert_eq!(latest_rollout(&vec![Some(0), None]), Some(1));
}

#[test]
fn lines_that_open_no_turn_are_passed_over() {
    let turn = "{\"type\":\"turn_context\",\"payload\":{\"turn_id\":\"t\"}}";
    let content = format!(
        "{}\r\nnot json\n{{\"type\":\"turn_context\"}}\n{{\"type\":\"other\",\"payload\":{{\"turn_id\":\"o\"}}}}\n{{\"type\":\"turn_context\",\"payload\":{{\"turn_id\":7}}}}",
        turn
    );
    assert_eq!(latest_turn_id(&content).as_deref(), Some("t"));
    assert_eq!(latest_turn_id(""), None);
    assert_eq!(latest_turn_id("\n\n"), None);
    assert_eq!(line_turn(turn).as_deref(), Some("t"));
    assert_eq!(line_turn("x"), None);
    assert_eq!(entry_turn(&parse_json(turn.as_bytes()).unwrap()).as_deref(), Some("t"));
}

#[test]
fn lines_end_as_std_ends_them() {
    for content in ["", "\n", "a", "a\n", "a\r\nb\r", "\r\n\n x \r\n", "a\n\nb", "\r"] {
        let expected: Vec<String> = content.lines().map(|l| l.to_owned()).collect();
        assert_eq!(lines_of(content), expected, "{:?}", content);
    }
}
