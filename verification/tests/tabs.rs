use rust_browser_control::error::ErrorOf;
use rust_browser_control::json::{parse_json, Json};
use rust_browser_control::tabs::{
    choose_tab, choose_user_tab, parse_tab_id, value_tab_id, Tab,
};

fn tab(id: u64, active: bool) -> Tab {
    Tab { id, title: String::new(), url: String::new(), active }
}

fn read(text: &str) -> Json {
    parse_json(text.as_bytes()).unwrap()
}

#[test]
fn a_tab_id_is_an_unsigned_number() {
    assert_eq!(parse_tab_id("17"), Ok(17));
    assert_eq!(parse_tab_id("+17"), Ok(17));
    assert_eq!(parse_tab_id("18446744073709551615"), Ok(u64::MAX));
    assert_eq!(parse_tab_id("-1"), Err(ErrorOf::TabId("-1".to_owned())));
    assert_eq!(parse_tab_id("").unwrap_err().message(), "tab id must be a positive integer: ");
    assert_eq!(
        parse_tab_id("18446744073709551616").unwrap_err().message(),
        "tab id must be a positive integer: 18446744073709551616"
    );
}

#[test]
fn every_tab_id_names_its_tab() {
    for id in [0, 1, 9, 10, 4_294_967_296, u64::MAX] {
        assert_eq!(parse_tab_id(&id.to_string()), Ok(id));
    }
}

#[test]
fn an_account_of_a_tab_gives_its_id() {
    assert_eq!(value_tab_id(&read("{\"id\":5}")), Some(5));
    assert_eq!(value_tab_id(&read("{\"id\":\"6\"}")), Some(6));
    assert_eq!(value_tab_id(&read("{\"tabId\":7}")), Some(7));
    assert_eq!(value_tab_id(&read("{\"id\":5,\"tabId\":7}")), Some(5));
    assert_eq!(value_tab_id(&read("{\"id\":\"x\",\"tabId\":7}")), None);
    assert_eq!(value_tab_id(&read("8")), Some(8));
    assert_eq!(value_tab_id(&read("\"8\"")), None);
    assert_eq!(value_tab_id(&read("-8")), None);
    assert_eq!(value_tab_id(&read("{}")), None);
    assert_eq!(value_tab_id(&Json::Null), None);
}

#[test]
fn the_requested_tab_wins_while_it_is_open() {
    let tabs = vec![tab(1, false), tab(2, true), tab(3, false), tab(4, true)];
    assert_eq!(choose_tab(&tabs, Some(3), Some(1)), Some(3));
    assert_eq!(choose_tab(&tabs, Some(9), Some(1)), Some(1));
    assert_eq!(choose_tab(&tabs, Some(9), None), Some(2));
    assert_eq!(choose_tab(&vec![tab(1, false), tab(2, false)], Some(9), None), Some(1));
    assert_eq!(choose_tab(&vec![], Some(1), Some(1)), None);
}

#[test]
fn the_active_tab_is_used_where_none_is_requested() {
    let tabs = vec![tab(1, false), tab(2, true), tab(3, false), tab(4, true)];
    for preferred in [None, Some(1), Some(2), Some(4), Some(9)] {
        assert_eq!(choose_tab(&tabs, None, preferred), Some(2));
    }
    let idle = vec![tab(1, false), tab(2, false)];
    assert_eq!(choose_tab(&idle, None, Some(2)), Some(2));
    assert_eq!(choose_tab(&idle, None, Some(9)), Some(1));
    assert_eq!(choose_tab(&idle, None, None), Some(1));
    assert_eq!(choose_tab(&vec![], None, Some(1)), None);
}

#[test]
fn the_choice_among_the_same_tabs_is_stable() {
    for tabs in [
        vec![tab(1, false), tab(2, true), tab(3, false)],
        vec![tab(1, false), tab(2, false)],
        vec![],
    ] {
        for requested in [None, Some(1), Some(9)] {
            for preferred in [None, Some(2), Some(3), Some(9)] {
                let chosen = choose_tab(&tabs, requested, preferred);
                assert_eq!(choose_tab(&tabs, requested, chosen), chosen);
            }
        }
    }
}

#[test]
fn the_active_tab_of_the_user_is_taken_over() {
    assert_eq!(
        choose_user_tab(&read("[{\"id\":1},{\"id\":2,\"active\":true},{\"id\":3,\"active\":true}]")),
        Some(2)
    );
    assert_eq!(choose_user_tab(&read("[{\"id\":1},{\"id\":2,\"active\":1}]")), Some(1));
    assert_eq!(choose_user_tab(&read("[{\"id\":1},{\"active\":true}]")), None);
    assert_eq!(choose_user_tab(&read("[]")), None);
    assert_eq!(choose_user_tab(&read("{\"id\":1}")), None);
}
