use rust_browser_control::error::ErrorOf;
use rust_browser_control::script::{
    checked_expression, find_select_expression, locate_expression, presence_expression,
    select_expression, snapshot_expression, type_expression, validate_locator, PAGE_IDENTITY,
    READY_STATE,
};

#[test]
fn locator_requires_exactly_one_choice() {
    assert!(validate_locator(Some("button"), None).is_ok());
    assert!(validate_locator(None, Some("Download")).is_ok());
    assert!(validate_locator(None, None).is_err());
    assert!(validate_locator(Some("button"), Some("Download")).is_err());
}

#[test]
fn an_empty_locator_is_none() {
    assert!(validate_locator(Some(""), Some("x")).is_ok());
    assert!(validate_locator(Some("x"), Some("")).is_ok());
    assert_eq!(validate_locator(Some(""), None).unwrap_err(), ErrorOf::Locator);
    assert_eq!(validate_locator(Some(""), Some("")).unwrap_err(), ErrorOf::Locator);
    assert_eq!(
        validate_locator(None, None).unwrap_err().message(),
        "supply exactly one non-empty locator: selector or text"
    );
}

#[test]
fn the_search_for_an_element_quotes_what_it_is_given() {
    let script = locate_expression(Some("a[title=\"x\"]"), None).unwrap();
    assert!(script.starts_with("(() => {\n          const selector = \"a[title=\\\"x\\\"]\";\n"));
    assert!(script.contains("          const wanted = null;\n"));
    assert!(script.contains("return {ok:false, reason:'not found'};"));
    assert!(script.ends_with("        })()"));
    let script = locate_expression(None, Some("Save \u{e9}\n")).unwrap();
    assert!(script.contains("const selector = null;\n"));
    assert!(script.contains("const wanted = \"Save \u{e9}\\n\";\n"));
    assert_eq!(locate_expression(None, None).unwrap_err(), ErrorOf::Locator);
}

#[test]
fn the_look_for_an_element_quotes_what_it_is_given() {
    let script = presence_expression(None, Some("Done")).unwrap();
    assert!(script.starts_with(
        "(() => {\n          const selector = null;\n          const wanted = \"Done\";\n"
    ));
    assert!(script.contains("{found:true, tag:el.tagName.toLowerCase()"));
    assert!(script.ends_with(": {found:false};\n        })()"));
    assert_eq!(
        presence_expression(Some("a"), Some("b")).unwrap_err(),
        ErrorOf::Locator
    );
}

#[test]
fn the_entry_of_text_says_whether_to_clear() {
    let script = type_expression("#q", "it's", true);
    assert!(script.contains("document.querySelector(\"#q\");"));
    assert!(script.contains("const next = \"it's\";"));
    assert!(script.contains("const value = true ? next : String(el.value || '') + next;"));
    assert!(script.contains("el.textContent = true ? next : String(el.textContent || '') + next;"));
    assert!(script.contains("{bubbles:true, inputType:'insertText', data:next}"));
    let script = type_expression("#q", "", false);
    assert!(script.contains("const value = false ? next"));
    assert!(script.contains("el.textContent = false ? next"));
}

#[test]
fn a_select_element_is_found_by_selector_and_index() {
    let script = find_select_expression("select", 12);
    assert!(script.contains("[...document.querySelectorAll(\"select\")];"));
    assert!(script.contains("const el = elements[12];"));
    assert!(script.contains("reason:'element is not a select'"));
    let script = select_expression("select", 3, "Two");
    assert!(script.contains("const el = elements[3];"));
    assert!(script.contains("const wanted = normalize(\"Two\");"));
    assert!(script.contains("selectorIndex:3, matches:elements.length}"));
    assert!(script.contains("replace(/\\s+/g, ' ')"));
}

#[test]
fn a_checkable_element_tells_its_state() {
    let script = checked_expression("#c");
    assert!(script.contains("const el = document.querySelector(\"#c\");"));
    assert!(script.contains("return {ok:true, checked:Boolean(el.checked),"));
}

#[test]
fn a_snapshot_names_its_tab() {
    let script = snapshot_expression(42);
    assert!(script.starts_with("(() => {\n          const esc = value => CSS.escape(String(value));"));
    assert!(script.contains("            tabId: 42,\n            url: location.href,\n"));
    assert!(!script.contains("TAB_ID"));
    assert!(script.contains(".filter(visible).slice(0, 300);"));
    assert!(script.contains("? '[password field]'"));
    assert!(script.ends_with("        })()"));
}

#[test]
fn the_page_tells_of_itself() {
    assert_eq!(READY_STATE, "document.readyState");
    assert_eq!(PAGE_IDENTITY, "({url: location.href, title: document.title})");
}
