//! The scripts that run in the page, and the locators they take.
use crate::error::{ControlError, ErrorOf, ErrorView};
use crate::json::{compact, json_text, Json, JsonView};
use crate::text::{
    bool_text, bool_word, contains_text, decimal, decimal_text, ends_with, lemma_contains_last,
    lemma_decimal, optional_str,
};
use vstd::prelude::*;

verus! {

broadcast use vstd::string::group_string_axioms;

/// The snapshot script up to the tab id.
pub const SNAPSHOT_HEAD: &'static str = r#"(() => {
          const esc = value => CSS.escape(String(value));
          const selectorFor = el => {
            if (el.id) return `#${esc(el.id)}`;
            const testid = el.getAttribute('data-testid');
            if (testid) return `[data-testid="${String(testid).replace(/"/g, '\\"')}"]`;
            const name = el.getAttribute('name');
            if (name) return `${el.tagName.toLowerCase()}[name="${String(name).replace(/"/g, '\\"')}"]`;
            const classes = [...el.classList].filter(Boolean).slice(0, 3);
            if (classes.length) return `${el.tagName.toLowerCase()}.${classes.map(esc).join('.')}`;
            const parts = [];
            let node = el;
            while (node && node.nodeType === 1 && parts.length < 5) {
              let part = node.tagName.toLowerCase();
              const siblings = node.parentElement ? [...node.parentElement.children].filter(x => x.tagName === node.tagName) : [];
              if (siblings.length > 1) part += `:nth-of-type(${siblings.indexOf(node) + 1})`;
              parts.unshift(part);
              node = node.parentElement;
            }
            return parts.join(' > ');
          };
          const visible = el => {
            const s = getComputedStyle(el);
            const r = el.getBoundingClientRect();
            return s.visibility !== 'hidden' && s.display !== 'none' && r.width > 0 && r.height > 0 && r.bottom > 0 && r.right > 0;
          };
          const nodes = [...document.querySelectorAll('a,button,input,textarea,select,[role="button"],[role="link"],[tabindex],.product-animation')]
            .filter(visible).slice(0, 300);
          return {
            tabId: "#;

/// The snapshot script behind the tab id.
pub const SNAPSHOT_TAIL: &'static str = r#",
            url: location.href,
            title: document.title,
            text: (document.body?.innerText || '').replace(/\n{3,}/g, '\n\n').slice(0, 16000),
            interactive: nodes.map((el, index) => {
              const r = el.getBoundingClientRect();
              return {
                ref: `e${index + 1}`,
                tag: el.tagName.toLowerCase(),
                role: el.getAttribute('role') || null,
                name: el.matches('input[type="password"]')
                  ? '[password field]'
                  : (el.getAttribute('aria-label') || el.innerText || el.value || el.getAttribute('title') || '').trim().replace(/\s+/g, ' ').slice(0, 180),
                selector: selectorFor(el),
                center: {x: r.left + r.width / 2, y: r.top + r.height / 2},
                disabled: Boolean(el.disabled || el.getAttribute('aria-disabled') === 'true')
              };
            })
          };
        })()"#;

/// The typing script up to the selector.
pub const TYPE_HEAD: &'static str = r#"(() => {
                  const el = document.querySelector("#;

/// The typing script between selector and text.
pub const TYPE_TEXT: &'static str = r#");
                  if (!el) return {ok:false, reason:'not found'};
                  el.focus();
                  const next = "#;

/// The typing script between the text and whether to clear a value.
pub const TYPE_VALUE: &'static str = r#";
                  if ('value' in el) {
                    const prototype = el.tagName === 'TEXTAREA' ? HTMLTextAreaElement.prototype : HTMLInputElement.prototype;
                    const setter = Object.getOwnPropertyDescriptor(prototype, 'value')?.set;
                    const value = "#;

/// The typing script between whether to clear a value and whether to clear content.
pub const TYPE_CONTENT: &'static str = r#" ? next : String(el.value || '') + next;
                    if (setter) setter.call(el, value); else el.value = value;
                    el.dispatchEvent(new InputEvent('input', {bubbles:true, inputType:'insertText', data:next}));
                    el.dispatchEvent(new Event('change', {bubbles:true}));
                    return {ok:true, value:el.value};
                  }
                  if (el.isContentEditable) {
                    el.textContent = "#;

/// The typing script behind whether to clear content.
pub const TYPE_TAIL: &'static str = r#" ? next : String(el.textContent || '') + next;
                    el.dispatchEvent(new InputEvent('input', {bubbles:true, inputType:'insertText', data:next}));
                    return {ok:true, value:el.textContent};
                  }
                  return {ok:false, reason:'element is not editable', tag:el.tagName.toLowerCase()};
                })()"#;

/// The script that finds a select element, up to the selector.
pub const FIND_SELECT_HEAD: &'static str = r#"(() => {
              const elements = [...document.querySelectorAll("#;

/// That script between selector and index.
pub const FIND_SELECT_INDEX: &'static str = r#")];
              const el = elements["#;

/// That script behind the index.
pub const FIND_SELECT_TAIL: &'static str = r#"];
              if (!el) return {ok:false, reason:'selector index not found', matches:elements.length};
              if (el.tagName !== 'SELECT') return {ok:false, reason:'element is not a select', tag:el.tagName.toLowerCase()};
              el.scrollIntoView({block:'center', inline:'center'});
              const rect = el.getBoundingClientRect();
              return {ok:true, x:rect.left + rect.width / 2, y:rect.top + rect.height / 2, matches:elements.length};
            })()"#;

/// The script that chooses an option, up to the selector.
pub const SELECT_HEAD: &'static str = r#"(() => {
              const normalize = value => String(value || '').trim().replace(/\s+/g, ' ').toLowerCase();
              const elements = [...document.querySelectorAll("#;

/// That script between selector and index.
pub const SELECT_INDEX: &'static str = r#")];
              const el = elements["#;

/// That script between index and option.
pub const SELECT_OPTION: &'static str = r#"];
              if (!el) return {ok:false, reason:'selector index not found', matches:elements.length};
              const wanted = normalize("#;

/// That script between the option and the index in its result.
pub const SELECT_RESULT: &'static str = r#");
              const choice = [...el.options].find(item => normalize(item.textContent) === wanted || normalize(item.value) === wanted)
                || [...el.options].find(item => normalize(item.textContent).includes(wanted));
              if (!choice) return {ok:false, reason:'option not found', options:[...el.options].map(item => item.textContent.trim())};
              el.value = choice.value;
              el.dispatchEvent(new Event('input', {bubbles:true}));
              el.dispatchEvent(new Event('change', {bubbles:true}));
              return {ok:true, value:el.value, text:choice.textContent.trim(), selectorIndex:"#;

/// That script behind the index in its result.
pub const SELECT_TAIL: &'static str = r#", matches:elements.length};
            })()"#;

/// The script that reads a checkable element, up to the selector.
pub const CHECKED_HEAD: &'static str = r#"(() => {
              const el = document.querySelector("#;

/// That script behind the selector.
pub const CHECKED_TAIL: &'static str = r#");
              if (!el) return {ok:false, reason:'not found'};
              if (el.type !== 'checkbox' && el.type !== 'radio') return {ok:false, reason:'element is not checkable', type:el.type};
              el.scrollIntoView({block:'center', inline:'center'});
              const rect = el.getBoundingClientRect();
              return {ok:true, checked:Boolean(el.checked), x:rect.left + rect.width / 2, y:rect.top + rect.height / 2};
            })()"#;

/// The script that locates an element, up to the selector.
pub const LOCATE_HEAD: &'static str = r#"(() => {
          const selector = "#;

/// That script between selector and text.
pub const LOCATE_TEXT: &'static str = r#";
          const wanted = "#;

/// That script behind the text.
pub const LOCATE_TAIL: &'static str = r#";
          const normalize = value => String(value || '').trim().replace(/\s+/g, ' ');
          let el = selector ? document.querySelector(selector) : null;
          if (!el && wanted) {
            const candidates = [...document.querySelectorAll('button,a,input,[role="button"],[role="link"],[tabindex],.product-animation,body *')];
            el = candidates.find(node => normalize(node.innerText || node.value || node.getAttribute('aria-label') || node.getAttribute('title')) === normalize(wanted))
              || candidates.find(node => normalize(node.innerText || node.value || node.getAttribute('aria-label') || node.getAttribute('title')).includes(normalize(wanted)));
          }
          if (!el) return {ok:false, reason:'not found'};
          if (el.disabled || el.getAttribute('aria-disabled') === 'true') return {ok:false, reason:'disabled'};
          el.scrollIntoView({block:'center', inline:'center'});
          const rect = el.getBoundingClientRect();
          if (!rect.width || !rect.height) return {ok:false, reason:'not visible'};
          return {
            ok:true,
            tag:el.tagName.toLowerCase(),
            text:normalize(el.innerText || el.value || el.getAttribute('aria-label')).slice(0, 200),
            x:Math.max(1, Math.min(innerWidth - 1, rect.left + rect.width / 2)),
            y:Math.max(1, Math.min(innerHeight - 1, rect.top + rect.height / 2))
          };
        })()"#;

/// The script that looks for an element, up to the selector.
pub const PRESENCE_HEAD: &'static str = r#"(() => {
          const selector = "#;

/// That script between selector and text.
pub const PRESENCE_TEXT: &'static str = r#";
          const wanted = "#;

/// That script behind the text.
pub const PRESENCE_TAIL: &'static str = r#";
          const normalize = value => String(value || '').trim().replace(/\s+/g, ' ');
          let el = selector ? document.querySelector(selector) : null;
          if (!el && wanted) el = [...document.querySelectorAll('body *')].find(node => normalize(node.innerText) === normalize(wanted));
          return el ? {found:true, tag:el.tagName.toLowerCase(), text:normalize(el.innerText || el.value || el.getAttribute('aria-label')).slice(0, 200)} : {found:false};
        })()"#;

/// Reads whether the document has loaded.
pub const READY_STATE: &'static str = "document.readyState";

/// Reads where a page is and what it is called.
pub const PAGE_IDENTITY: &'static str = "({url: location.href, title: document.title})";

/// A script literal of a text.
pub open spec fn literal(text: Seq<char>) -> Seq<char> {
    compact(JsonView::Text(text))
}

/// A script literal of a text that may be missing.
pub open spec fn optional_literal(text: Option<Seq<char>>) -> Seq<char> {
    match text {
        Some(text) => literal(text),
        None => compact(JsonView::Null),
    }
}

/// Whether a locator part was given and is not empty.
pub open spec fn is_given(part: Option<Seq<char>>) -> bool {
    part matches Some(text) && text.len() > 0
}

/// Whether exactly one of selector and text was given.
pub open spec fn one_locator(selector: Option<Seq<char>>, text: Option<Seq<char>>) -> bool {
    is_given(selector) != is_given(text)
}

/// The script that locates an element.
pub open spec fn locate_script(selector: Option<Seq<char>>, text: Option<Seq<char>>) -> Seq<char> {
    LOCATE_HEAD@ + optional_literal(selector) + LOCATE_TEXT@ + optional_literal(text) + LOCATE_TAIL@
}

/// The script that looks for an element.
pub open spec fn presence_script(selector: Option<Seq<char>>, text: Option<Seq<char>>) -> Seq<
    char,
> {
    PRESENCE_HEAD@ + optional_literal(selector) + PRESENCE_TEXT@ + optional_literal(text)
        + PRESENCE_TAIL@
}

/// The script that types a text.
pub open spec fn type_script(selector: Seq<char>, text: Seq<char>, clear: bool) -> Seq<char> {
    TYPE_HEAD@ + literal(selector) + TYPE_TEXT@ + literal(text) + TYPE_VALUE@ + bool_word(clear)
        + TYPE_CONTENT@ + bool_word(clear) + TYPE_TAIL@
}

/// The script that finds a select element.
pub open spec fn find_select_script(selector: Seq<char>, index: nat) -> Seq<char> {
    FIND_SELECT_HEAD@ + literal(selector) + FIND_SELECT_INDEX@ + decimal(index) + FIND_SELECT_TAIL@
}

/// The script that chooses an option.
pub open spec fn select_script(selector: Seq<char>, index: nat, option: Seq<char>) -> Seq<char> {
    SELECT_HEAD@ + literal(selector) + SELECT_INDEX@ + decimal(index) + SELECT_OPTION@ + literal(
        option,
    ) + SELECT_RESULT@ + decimal(index) + SELECT_TAIL@
}

/// The script that reads a checkable element.
pub open spec fn checked_script(selector: Seq<char>) -> Seq<char> {
    CHECKED_HEAD@ + literal(selector) + CHECKED_TAIL@
}

/// The script that takes a snapshot.
pub open spec fn snapshot_script(tab: u64) -> Seq<char> {
    SNAPSHOT_HEAD@ + decimal(tab as nat) + SNAPSHOT_TAIL@
}

/// The view of a text or an error.
pub open spec fn text_result(r: Result<String, ControlError>) -> Result<Seq<char>, ErrorView> {
    match r {
        Ok(text) => Ok(text@),
        Err(e) => Err(e@),
    }
}

/// The exec form of [`literal`].
fn literal_of(text: &str) -> (script: String)
    ensures
        script@ == literal(text@),
{
    json_text(&Json::text(text))
}

/// The exec form of [`optional_literal`].
fn optional_literal_of(text: Option<&str>) -> (script: String)
    ensures
        script@ == optional_literal(optional_str(text)),
{
    match text {
        Some(text) => literal_of(text),
        None => json_text(&Json::Null),
    }
}

/// The exec form of [`is_given`].
fn given(part: Option<&str>) -> (b: bool)
    ensures
        b == is_given(optional_str(part)),
{
    match part {
        Some(text) => !text.is_empty(),
        None => false,
    }
}

/// Checks that exactly one of selector and text is given.
pub fn validate_locator(selector: Option<&str>, text: Option<&str>) -> (r: Result<(), ControlError>)
    ensures
        r is Ok <==> one_locator(optional_str(selector), optional_str(text)),
        r matches Err(e) ==> e@ == ErrorView::Locator,
{
    if given(selector) != given(text) {
        Ok(())
    } else {
        Err(ErrorOf::Locator)
    }
}

/// The script that locates an element, for exactly one of selector and text.
pub fn locate_expression(selector: Option<&str>, text: Option<&str>) -> (r: Result<
    String,
    ControlError,
>)
    ensures
        text_result(r) == (if one_locator(optional_str(selector), optional_str(text)) {
            Ok(locate_script(optional_str(selector), optional_str(text)))
        } else {
            Err(ErrorView::Locator)
        }),
{
    if let Err(e) = validate_locator(selector, text) {
        return Err(e);
    }
    let mut script = LOCATE_HEAD.to_owned();
    script.append(&optional_literal_of(selector));
    script.append(LOCATE_TEXT);
    script.append(&optional_literal_of(text));
    script.append(LOCATE_TAIL);
    Ok(script)
}

/// The script that looks for an element, for exactly one of selector and text.
pub fn presence_expression(selector: Option<&str>, text: Option<&str>) -> (r: Result<
    String,
    ControlError,
>)
    ensures
        text_result(r) == (if one_locator(optional_str(selector), optional_str(text)) {
            Ok(presence_script(optional_str(selector), optional_str(text)))
        } else {
            Err(ErrorView::Locator)
        }),
{
    if let Err(e) = validate_locator(selector, text) {
        return Err(e);
    }
    let mut script = PRESENCE_HEAD.to_owned();
    script.append(&optional_literal_of(selector));
    script.append(PRESENCE_TEXT);
    script.append(&optional_literal_of(text));
    script.append(PRESENCE_TAIL);
    Ok(script)
}

/// The script that types a text.
pub fn type_expression(selector: &str, text: &str, clear: bool) -> (script: String)
    ensures
        script@ == type_script(selector@, text@, clear),
{
    let mut script = TYPE_HEAD.to_owned();
    script.append(&literal_of(selector));
    script.append(TYPE_TEXT);
    script.append(&literal_of(text));
    script.append(TYPE_VALUE);
    script.append(bool_text(clear));
    script.append(TYPE_CONTENT);
    script.append(bool_text(clear));
    script.append(TYPE_TAIL);
    script
}

/// The script that finds a select element.
pub fn find_select_expression(selector: &str, index: usize) -> (script: String)
    ensures
        script@ == find_select_script(selector@, index as nat),
{
    let mut script = FIND_SELECT_HEAD.to_owned();
    script.append(&literal_of(selector));
    script.append(FIND_SELECT_INDEX);
    script.append(&decimal_text(index as u128));
    script.append(FIND_SELECT_TAIL);
    script
}

/// The script that chooses an option.
pub fn select_expression(selector: &str, index: usize, option: &str) -> (script: String)
    ensures
        script@ == select_script(selector@, index as nat, option@),
{
    let mut script = SELECT_HEAD.to_owned();
    script.append(&literal_of(selector));
    script.append(SELECT_INDEX);
    script.append(&decimal_text(index as u128));
    script.append(SELECT_OPTION);
    script.append(&literal_of(option));
    script.append(SELECT_RESULT);
    script.append(&decimal_text(index as u128));
    script.append(SELECT_TAIL);
    script
}

/// The script that reads a checkable element.
pub fn checked_expression(selector: &str) -> (script: String)
    ensures
        script@ == checked_script(selector@),
{
    let mut script = CHECKED_HEAD.to_owned();
    script.append(&literal_of(selector));
    script.append(CHECKED_TAIL);
    script
}

/// The script that takes a snapshot.
pub fn snapshot_expression(tab: u64) -> (script: String)
    ensures
        script@ == snapshot_script(tab),
{
    let mut script = SNAPSHOT_HEAD.to_owned();
    script.append(&decimal_text(tab as u128));
    script.append(SNAPSHOT_TAIL);
    script
}

/// Whether a text begins with another.
pub open spec fn begins_with(text: Seq<char>, start: Seq<char>) -> bool {
    text.len() >= start.len() && text.take(start.len() as int) == start
}

/// A text that ends with a label, with a value behind it.
proof fn lemma_labelled(before: Seq<char>, head: Seq<char>, label: Seq<char>, value: Seq<char>)
    requires
        ends_with(head, label),
    ensures
        contains_text(before + head + value, label + value),
{
    let start = head.take(head.len() - label.len());
    assert(head =~= start + label);
    assert(before + head + value =~= (before + start) + label + value);
    lemma_contains_last(before + start, label, value);
}

/// A text that ends with a label, with a value and a text behind it.
proof fn lemma_framed(
    before: Seq<char>,
    head: Seq<char>,
    label: Seq<char>,
    value: Seq<char>,
    tail: Seq<char>,
    start: Seq<char>,
)
    requires
        ends_with(head, label),
        begins_with(tail, start),
    ensures
        contains_text(before + head + value + tail, label + value + start),
{
    let lead = head.take(head.len() - label.len());
    let whole = before + head + value + tail;
    let part = label + value + start;
    let at = (before.len() + lead.len()) as int;
    assert(head =~= lead + label);
    assert(tail =~= start + tail.skip(start.len() as int));
    assert(whole.subrange(at, at + part.len()) =~= part);
}

/// The script that locates an element looks for the selector and the text that
/// it is made for, each as a literal of its own, or null where there is none.
pub proof fn law_locate_script(selector: Option<Seq<char>>, text: Option<Seq<char>>)
    ensures
        contains_text(
            locate_script(selector, text),
            "const selector = "@ + match selector {
                Some(selector) => compact(JsonView::Text(selector)),
                None => compact(JsonView::Null),
            },
        ),
        contains_text(
            locate_script(selector, text),
            "const wanted = "@ + match text {
                Some(text) => compact(JsonView::Text(text)),
                None => compact(JsonView::Null),
            },
        ),
{
    broadcast use crate::text::lemma_contains_before;

    assert(ends_with(LOCATE_HEAD@, "const selector = "@)) by {
        reveal_strlit(r#"(() => {
          const selector = "#);
        reveal_strlit("const selector = ");
        assert(LOCATE_HEAD@.skip(19) =~= "const selector = "@);
    }
    assert(ends_with(LOCATE_TEXT@, "const wanted = "@)) by {
        reveal_strlit(r#";
          const wanted = "#);
        reveal_strlit("const wanted = ");
        assert(LOCATE_TEXT@.skip(12) =~= "const wanted = "@);
    }
    let head = LOCATE_HEAD@ + optional_literal(selector);
    assert(head =~= Seq::<char>::empty() + LOCATE_HEAD@ + optional_literal(selector));
    lemma_labelled(Seq::empty(), LOCATE_HEAD@, "const selector = "@, optional_literal(selector));
    lemma_labelled(head, LOCATE_TEXT@, "const wanted = "@, optional_literal(text));
}

/// The script that looks for an element does so for the selector and the text
/// that it is made for, each as a literal of its own, or null where there is
/// none.
pub proof fn law_presence_script(selector: Option<Seq<char>>, text: Option<Seq<char>>)
    ensures
        contains_text(
            presence_script(selector, text),
            "const selector = "@ + match selector {
                Some(selector) => compact(JsonView::Text(selector)),
                None => compact(JsonView::Null),
            },
        ),
        contains_text(
            presence_script(selector, text),
            "const wanted = "@ + match text {
                Some(text) => compact(JsonView::Text(text)),
                None => compact(JsonView::Null),
            },
        ),
{
    broadcast use crate::text::lemma_contains_before;

    assert(ends_with(PRESENCE_HEAD@, "const selector = "@)) by {
        reveal_strlit(r#"(() => {
          const selector = "#);
        reveal_strlit("const selector = ");
        assert(PRESENCE_HEAD@.skip(19) =~= "const selector = "@);
    }
    assert(ends_with(PRESENCE_TEXT@, "const wanted = "@)) by {
        reveal_strlit(r#";
          const wanted = "#);
        reveal_strlit("const wanted = ");
        assert(PRESENCE_TEXT@.skip(12) =~= "const wanted = "@);
    }
    let head = PRESENCE_HEAD@ + optional_literal(selector);
    assert(head =~= Seq::<char>::empty() + PRESENCE_HEAD@ + optional_literal(selector));
    lemma_labelled(Seq::empty(), PRESENCE_HEAD@, "const selector = "@, optional_literal(selector));
    lemma_labelled(head, PRESENCE_TEXT@, "const wanted = "@, optional_literal(text));
}

/// The script that types enters its text into the element of its selector: in
/// the place of the value or the content that is there where that is to be
/// cleared, and behind it otherwise.
pub proof fn law_type_script(selector: Seq<char>, text: Seq<char>, clear: bool)
    ensures
        ({
            let script = type_script(selector, text, clear);
            let word = if clear {
                "true"@
            } else {
                "false"@
            };
            &&& contains_text(
                script,
                "document.querySelector("@ + compact(JsonView::Text(selector)),
            )
            &&& contains_text(script, "const next = "@ + compact(JsonView::Text(text)))
            &&& contains_text(
                script,
                "const value = "@ + word + " ? next : String(el.value || '') + next;"@,
            )
            &&& contains_text(
                script,
                "el.textContent = "@ + word + " ? next : String(el.textContent || '') + next;"@,
            )
        }),
{
    broadcast use crate::text::lemma_contains_before;

    assert(ends_with(TYPE_HEAD@, "document.querySelector("@)) by {
        reveal_strlit(r#"(() => {
                  const el = document.querySelector("#);
        reveal_strlit("document.querySelector(");
        assert(TYPE_HEAD@.skip(38) =~= "document.querySelector("@);
    }
    assert(ends_with(TYPE_TEXT@, "const next = "@)) by {
        reveal_strlit(r#");
                  if (!el) return {ok:false, reason:'not found'};
                  el.focus();
                  const next = "#);
        reveal_strlit("const next = ");
        assert(TYPE_TEXT@.skip(117) =~= "const next = "@);
    }
    assert(ends_with(TYPE_VALUE@, "const value = "@)) by {
        reveal_strlit(r#";
                  if ('value' in el) {
                    const prototype = el.tagName === 'TEXTAREA' ? HTMLTextAreaElement.prototype : HTMLInputElement.prototype;
                    const setter = Object.getOwnPropertyDescriptor(prototype, 'value')?.set;
                    const value = "#);
        reveal_strlit("const value = ");
        assert(TYPE_VALUE@.skip(280) =~= "const value = "@);
    }
    assert(begins_with(TYPE_CONTENT@, " ? next : String(el.value || '') + next;"@)) by {
        reveal_strlit(r#" ? next : String(el.value || '') + next;
                    if (setter) setter.call(el, value); else el.value = value;
                    el.dispatchEvent(new InputEvent('input', {bubbles:true, inputType:'insertText', data:next}));
                    el.dispatchEvent(new Event('change', {bubbles:true}));
                    return {ok:true, value:el.value};
                  }
                  if (el.isContentEditable) {
                    el.textContent = "#);
        reveal_strlit(" ? next : String(el.value || '') + next;");
        assert(TYPE_CONTENT@.take(40) =~= " ? next : String(el.value || '') + next;"@);
    }
    assert(ends_with(TYPE_CONTENT@, "el.textContent = "@)) by {
        reveal_strlit(r#" ? next : String(el.value || '') + next;
                    if (setter) setter.call(el, value); else el.value = value;
                    el.dispatchEvent(new InputEvent('input', {bubbles:true, inputType:'insertText', data:next}));
                    el.dispatchEvent(new Event('change', {bubbles:true}));
                    return {ok:true, value:el.value};
                  }
                  if (el.isContentEditable) {
                    el.textContent = "#);
        reveal_strlit("el.textContent = ");
        assert(TYPE_CONTENT@.skip(449) =~= "el.textContent = "@);
    }
    assert(begins_with(TYPE_TAIL@, " ? next : String(el.textContent || '') + next;"@)) by {
        reveal_strlit(r#" ? next : String(el.textContent || '') + next;
                    el.dispatchEvent(new InputEvent('input', {bubbles:true, inputType:'insertText', data:next}));
                    return {ok:true, value:el.textContent};
                  }
                  return {ok:false, reason:'element is not editable', tag:el.tagName.toLowerCase()};
                })()"#);
        reveal_strlit(" ? next : String(el.textContent || '') + next;");
        assert(TYPE_TAIL@.take(46) =~= " ? next : String(el.textContent || '') + next;"@);
    }
    let one = TYPE_HEAD@ + literal(selector);
    let two = one + TYPE_TEXT@ + literal(text);
    let three = two + TYPE_VALUE@ + bool_word(clear);
    assert(one =~= Seq::<char>::empty() + TYPE_HEAD@ + literal(selector));
    lemma_labelled(Seq::empty(), TYPE_HEAD@, "document.querySelector("@, literal(selector));
    lemma_labelled(one, TYPE_TEXT@, "const next = "@, literal(text));
    lemma_framed(
        two,
        TYPE_VALUE@,
        "const value = "@,
        bool_word(clear),
        TYPE_CONTENT@,
        " ? next : String(el.value || '') + next;"@,
    );
    lemma_framed(
        three,
        TYPE_CONTENT@,
        "el.textContent = "@,
        bool_word(clear),
        TYPE_TAIL@,
        " ? next : String(el.textContent || '') + next;"@,
    );
}

/// The scripts for a select element look at the one at their index among those
/// that their selector matches; the one that chooses looks for its option.
pub proof fn law_select_scripts(selector: Seq<char>, index: nat, option: Seq<char>)
    ensures
        ({
            let find = find_select_script(selector, index);
            let select = select_script(selector, index, option);
            let all = "document.querySelectorAll("@ + compact(JsonView::Text(selector));
            &&& contains_text(find, all)
            &&& contains_text(find, "const el = elements["@ + decimal(index))
            &&& contains_text(select, all)
            &&& contains_text(select, "const el = elements["@ + decimal(index))
            &&& contains_text(
                select,
                "const wanted = normalize("@ + compact(JsonView::Text(option)),
            )
            &&& contains_text(select, "selectorIndex:"@ + decimal(index))
        }),
{
    broadcast use crate::text::lemma_contains_before;

    assert(ends_with(FIND_SELECT_HEAD@, "document.querySelectorAll("@)) by {
        reveal_strlit(r#"(() => {
              const elements = [...document.querySelectorAll("#);
        reveal_strlit("document.querySelectorAll(");
        assert(FIND_SELECT_HEAD@.skip(44) =~= "document.querySelectorAll("@);
    }
    assert(ends_with(FIND_SELECT_INDEX@, "const el = elements["@)) by {
        reveal_strlit(r#")];
              const el = elements["#);
        reveal_strlit("const el = elements[");
        assert(FIND_SELECT_INDEX@.skip(18) =~= "const el = elements["@);
    }
    assert(ends_with(SELECT_HEAD@, "document.querySelectorAll("@)) by {
        reveal_strlit(r#"(() => {
              const normalize = value => String(value || '').trim().replace(/\s+/g, ' ').toLowerCase();
              const elements = [...document.querySelectorAll("#);
        reveal_strlit("document.querySelectorAll(");
        assert(SELECT_HEAD@.skip(148) =~= "document.querySelectorAll("@);
    }
    assert(ends_with(SELECT_INDEX@, "const el = elements["@)) by {
        reveal_strlit(r#")];
              const el = elements["#);
        reveal_strlit("const el = elements[");
        assert(SELECT_INDEX@.skip(18) =~= "const el = elements["@);
    }
    assert(ends_with(SELECT_OPTION@, "const wanted = normalize("@)) by {
        reveal_strlit(r#"];
              if (!el) return {ok:false, reason:'selector index not found', matches:elements.length};
              const wanted = normalize("#);
        reveal_strlit("const wanted = normalize(");
        assert(SELECT_OPTION@.skip(119) =~= "const wanted = normalize("@);
    }
    assert(ends_with(SELECT_RESULT@, "selectorIndex:"@)) by {
        reveal_strlit(r#");
              const choice = [...el.options].find(item => normalize(item.textContent) === wanted || normalize(item.value) === wanted)
                || [...el.options].find(item => normalize(item.textContent).includes(wanted));
              if (!choice) return {ok:false, reason:'option not found', options:[...el.options].map(item => item.textContent.trim())};
              el.value = choice.value;
              el.dispatchEvent(new Event('input', {bubbles:true}));
              el.dispatchEvent(new Event('change', {bubbles:true}));
              return {ok:true, value:el.value, text:choice.textContent.trim(), selectorIndex:"#);
        reveal_strlit("selectorIndex:");
        assert(SELECT_RESULT@.skip(622) =~= "selectorIndex:"@);
    }
    let all = "document.querySelectorAll("@;
    let find = FIND_SELECT_HEAD@ + literal(selector);
    assert(find =~= Seq::<char>::empty() + FIND_SELECT_HEAD@ + literal(selector));
    lemma_labelled(Seq::empty(), FIND_SELECT_HEAD@, all, literal(selector));
    lemma_labelled(find, FIND_SELECT_INDEX@, "const el = elements["@, decimal(index));
    let one = SELECT_HEAD@ + literal(selector);
    let two = one + SELECT_INDEX@ + decimal(index);
    let three = two + SELECT_OPTION@ + literal(option);
    assert(one =~= Seq::<char>::empty() + SELECT_HEAD@ + literal(selector));
    lemma_labelled(Seq::empty(), SELECT_HEAD@, all, literal(selector));
    lemma_labelled(one, SELECT_INDEX@, "const el = elements["@, decimal(index));
    lemma_labelled(two, SELECT_OPTION@, "const wanted = normalize("@, literal(option));
    lemma_labelled(three, SELECT_RESULT@, "selectorIndex:"@, decimal(index));
}

/// The script that reads a checkable element looks at the one of its selector.
pub proof fn law_checked_script(selector: Seq<char>)
    ensures
        contains_text(
            checked_script(selector),
            "document.querySelector("@ + compact(JsonView::Text(selector)),
        ),
{
    broadcast use crate::text::lemma_contains_before;

    assert(ends_with(CHECKED_HEAD@, "document.querySelector("@)) by {
        reveal_strlit(r#"(() => {
              const el = document.querySelector("#);
        reveal_strlit("document.querySelector(");
        assert(CHECKED_HEAD@.skip(34) =~= "document.querySelector("@);
    }
    let head = CHECKED_HEAD@ + literal(selector);
    assert(head =~= Seq::<char>::empty() + CHECKED_HEAD@ + literal(selector));
    lemma_labelled(Seq::empty(), CHECKED_HEAD@, "document.querySelector("@, literal(selector));
}

/// The snapshots of two tabs are told apart: each script names its own tab.
pub proof fn law_snapshot_names_its_tab(a: u64, b: u64)
    ensures
        contains_text(snapshot_script(a), decimal(a as nat)),
        snapshot_script(a) == snapshot_script(b) ==> a == b,
{
    let one = decimal(a as nat);
    let other = decimal(b as nat);
    let n = SNAPSHOT_HEAD@.len() as int;
    let script = snapshot_script(a);
    assert(script.subrange(n, n + one.len()) =~= one);
    if script == snapshot_script(b) {
        assert(script.len() == n + one.len() + SNAPSHOT_TAIL@.len());
        assert(snapshot_script(b).len() == n + other.len() + SNAPSHOT_TAIL@.len());
        assert(snapshot_script(b).subrange(n, n + other.len()) =~= other);
        lemma_decimal(a as nat);
        lemma_decimal(b as nat);
    }
}

/// A locator is exactly one of a selector and a text, and an empty one is none.
pub proof fn law_one_locator(selector: Seq<char>, text: Seq<char>)
    ensures
        one_locator(Some(selector), None) <==> selector.len() > 0,
        one_locator(None, Some(text)) <==> text.len() > 0,
        !one_locator(None, None),
        selector.len() > 0 && text.len() > 0 ==> !one_locator(Some(selector), Some(text)),
        selector.len() == 0 ==> one_locator(Some(selector), Some(text)) == one_locator(
            None,
            Some(text),
        ),
        text.len() == 0 ==> one_locator(Some(selector), Some(text)) == one_locator(
            Some(selector),
            None,
        ),
{
}

} // verus!
