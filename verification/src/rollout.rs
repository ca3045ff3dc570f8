//! The turn that a task is in, as the task's rollout files record it.
use crate::config::BrowserConfig;
use crate::json::{as_text, field, parse_json, parsed, then_field, Json, JsonView};
use crate::text::{
    chars_of, contains_text, ends_with, has_part, has_suffix, lines, optional_text, same_text,
    slice_of, split_at_mark, string_of, strip_return, texts,
};
use vstd::prelude::*;
use vstd::utf8::encode_utf8;

verus! {

broadcast use vstd::string::group_string_axioms;

/// Whether a file of this name records the session.
pub open spec fn records(name: Seq<char>, session_id: Seq<char>) -> bool {
    ends_with(name, ".jsonl"@) && contains_text(name, session_id)
}

/// The exec form of [`records`].
pub fn is_rollout(name: &str, session_id: &str) -> (b: bool)
    ensures
        b == records(name@, session_id@),
{
    let chars = chars_of(name);
    has_suffix(&chars, &chars_of(".jsonl")) && has_part(&chars, &chars_of(session_id))
}

/// When a file was last changed, in nanoseconds into the epoch; the start of
/// the epoch where that is unknown.
pub open spec fn changed_at(modified: Option<i128>) -> int {
    match modified {
        Some(t) => t as int,
        None => 0,
    }
}

/// Whether the file `at` is the last of those that were changed last.
pub open spec fn is_latest(modified: Seq<Option<i128>>, at: int) -> bool {
    &&& 0 <= at < modified.len()
    &&& forall|k: int|
        0 <= k < modified.len() ==> changed_at(#[trigger] modified[k]) <= changed_at(modified[at])
    &&& forall|k: int|
        at < k < modified.len() ==> changed_at(#[trigger] modified[k]) < changed_at(modified[at])
}

/// The place of the file that was changed last, the last one of several.
pub fn latest_rollout(modified: &Vec<Option<i128>>) -> (at: Option<usize>)
    ensures
        at is None <==> modified@.len() == 0,
        at matches Some(at) ==> is_latest(modified@, at as int),
        at matches Some(at) ==> forall|k: int|
            0 <= k < modified@.len() ==> {
                let (own, other) = (modified@[at as int], #[trigger] modified@[k]);
                match (own, other) {
                    (Some(t), Some(u)) => u < t || (u == t && k <= at),
                    (Some(t), None) => 0 < t || (0 == t && k <= at),
                    (None, Some(u)) => u < 0 || (u == 0 && k <= at),
                    (None, None) => k <= at,
                }
            },
{
    if modified.len() == 0 {
        return None;
    }
    let mut best: usize = 0;
    let mut best_time: i128 = match modified[0] {
        Some(t) => t,
        None => 0,
    };
    let mut i: usize = 1;
    while i < modified.len()
        invariant
            best < i <= modified@.len(),
            best_time == changed_at(modified@[best as int]),
            forall|k: int| 0 <= k < i ==> changed_at(#[trigger] modified@[k]) <= best_time,
            forall|k: int| best < k < i ==> changed_at(#[trigger] modified@[k]) < best_time,
        decreases modified@.len() - i,
    {
        let time: i128 = match modified[i] {
            Some(t) => t,
            None => 0,
        };
        assert(time == changed_at(modified@[i as int]));
        if time >= best_time {
            best = i;
            best_time = time;
        }
        i = i + 1;
    }
    Some(best)
}

/// The turn that an entry of a rollout file opens.
pub open spec fn turn_of(entry: JsonView) -> Option<Seq<char>> {
    if as_text(field(entry, "type"@)) == Some("turn_context"@) {
        as_text(then_field(field(entry, "payload"@), "turn_id"@))
    } else {
        None
    }
}

/// The turn that a line of a rollout file opens.
pub open spec fn turn_of_line(line: Seq<char>) -> Option<Seq<char>> {
    match parsed(encode_utf8(line)) {
        Ok(entry) => turn_of(entry),
        Err(_) => None,
    }
}

/// The turn that the last of some lines opens that opens one.
pub open spec fn last_turn(lines: Seq<Seq<char>>) -> Option<Seq<char>>
    decreases lines.len(),
{
    if lines.len() == 0 {
        None
    } else {
        match turn_of_line(lines.last()) {
            Some(turn) => Some(turn),
            None => last_turn(lines.drop_last()),
        }
    }
}

/// The exec form of [`turn_of`].
pub fn entry_turn(entry: &Json) -> (turn: Option<String>)
    ensures
        optional_text(turn) == turn_of(entry@),
{
    let opens = match entry.get("type") {
        Some(kind) => match kind.as_str() {
            Some(kind) => same_text(kind, "turn_context"),
            None => false,
        },
        None => false,
    };
    if !opens {
        return None;
    }
    match entry.get("payload") {
        Some(payload) => match payload.get("turn_id") {
            Some(id) => match id.as_str() {
                Some(id) => Some(id.to_owned()),
                None => None,
            },
            None => None,
        },
        None => None,
    }
}

/// The exec form of [`turn_of_line`].
pub fn line_turn(line: &str) -> (turn: Option<String>)
    ensures
        optional_text(turn) == turn_of_line(line@),
{
    match parse_json(line.as_bytes()) {
        Ok(entry) => entry_turn(&entry),
        Err(_) => None,
    }
}

/// The exec form of [`lines`].
pub fn lines_of(content: &str) -> (list: Vec<String>)
    ensures
        texts(list@) == lines(content@),
{
    let parts = split_at_mark(&chars_of(content), '\n');
    let ghost views = parts@.map_values(|p: Vec<char>| p@);
    let ghost ended = views.drop_last().map_values(|p: Seq<char>| strip_return(p));
    let last = parts.len() - 1;
    let mut list: Vec<String> = Vec::new();
    let mut i: usize = 0;
    assert(texts(list@) =~= ended.take(0));
    while i < last
        invariant
            i <= last,
            last == parts@.len() - 1,
            views == parts@.map_values(|p: Vec<char>| p@),
            ended == views.drop_last().map_values(|p: Seq<char>| strip_return(p)),
            texts(list@) == ended.take(i as int),
        decreases last - i,
    {
        let n = parts[i].len();
        let end = if n > 0 && parts[i][n - 1] == '\r' {
            n - 1
        } else {
            n
        };
        let line = slice_of(&parts[i], 0, end);
        assert(line@ =~= strip_return(parts@[i as int]@));
        let ghost before = texts(list@);
        let text = string_of(&line);
        let ghost view = text@;
        list.push(text);
        assert(texts(list@) =~= before.push(view));
        assert(ended.take(i + 1) =~= ended.take(i as int).push(ended[i as int]));
        i = i + 1;
    }
    assert(ended.take(last as int) =~= ended);
    assert(views.last() == parts@[last as int]@);
    if parts[last].len() > 0 {
        let ghost before = texts(list@);
        let text = string_of(&parts[last]);
        let ghost view = text@;
        list.push(text);
        assert(texts(list@) =~= before.push(view));
    }
    list
}

/// The turn that the content of a rollout file ends in.
pub fn latest_turn_id(content: &str) -> (turn: Option<String>)
    ensures
        optional_text(turn) == last_turn(lines(content@)),
{
    let list = lines_of(content);
    let ghost views = texts(list@);
    let mut i: usize = list.len();
    assert(views.take(views.len() as int) =~= views);
    while i > 0
        invariant
            i <= list@.len(),
            views == texts(list@),
            views == lines(content@),
            last_turn(views) == last_turn(views.take(i as int)),
        decreases i,
    {
        i = i - 1;
        let ghost upto = views.take(i + 1);
        assert(upto.last() == list@[i as int]@);
        assert(upto.drop_last() =~= views.take(i as int));
        let turn = line_turn(&list[i]);
        if turn.is_some() {
            return turn;
        }
    }
    None
}

/// The turn that requests carry: the one that is set, or else that of the
/// task, or else the one on record, or else a name of the controller's own.
pub open spec fn turn_in_force(
    set: Option<Seq<char>>,
    task: Option<Seq<char>>,
    recorded: Option<Seq<char>>,
) -> Seq<char> {
    if set is Some {
        set->0
    } else if task is Some {
        task->0
    } else if recorded is Some {
        recorded->0
    } else {
        "rust-browser-control"@
    }
}

impl BrowserConfig {
    /// The turn that requests carry, from `RUST_BROWSER_TURN_ID`,
    /// `CODEX_TURN_ID` and the rollout files.
    pub fn current_turn_id(
        &self,
        set: Option<String>,
        task: Option<String>,
        recorded: Option<String>,
    ) -> (turn: String)
        ensures
            turn@ == turn_in_force(
                optional_text(set),
                optional_text(task),
                optional_text(recorded),
            ),
    {
        match set {
            Some(turn) => turn,
            None => match task {
                Some(turn) => turn,
                None => match recorded {
                    Some(turn) => turn,
                    None => "rust-browser-control".to_owned(),
                },
            },
        }
    }
}

/// A turn that is recorded behind all others is the one that the task is in.
pub proof fn law_last_turn_counts(before: Seq<Seq<char>>, line: Seq<char>)
    ensures
        turn_of_line(line) is Some ==> last_turn(before.push(line)) == turn_of_line(line),
        turn_of_line(line) is None ==> last_turn(before.push(line)) == last_turn(before),
{
    assert(before.push(line).drop_last() =~= before);
}

/// Of several files, only one is the latest.
pub proof fn law_latest_is_unique(modified: Seq<Option<i128>>, a: int, b: int)
    requires
        is_latest(modified, a),
        is_latest(modified, b),
    ensures
        a == b,
{
    if a < b {
        assert(changed_at(modified[b]) < changed_at(modified[a]));
    } else if b < a {
        assert(changed_at(modified[a]) < changed_at(modified[b]));
    }
}

/// A line opens the turn that its payload names where it is the context of a
/// turn, and none otherwise.
pub proof fn law_turn_is_read(line: Seq<char>, entry: JsonView, payload: JsonView, turn: Seq<char>)
    requires
        parsed(encode_utf8(line)) == Ok::<JsonView, Seq<char>>(entry),
    ensures
        field(entry, "type"@) == Some(JsonView::Text("turn_context"@)) && field(entry, "payload"@)
            == Some(payload) && field(payload, "turn_id"@) == Some(JsonView::Text(turn))
            ==> turn_of_line(line) == Some(turn),
        field(entry, "type"@) != Some(JsonView::Text("turn_context"@)) ==> turn_of_line(
            line,
        ) is None,
{
}

/// The turn in force is the one that is set, or else that of the task, or else
/// the last that was recorded, or else a name for none.
pub proof fn law_turn_in_force(a: Seq<char>, b: Option<Seq<char>>, c: Option<Seq<char>>)
    ensures
        turn_in_force(Some(a), b, c) == a,
        turn_in_force(None, Some(a), c) == a,
        turn_in_force(None, None, Some(a)) == a,
        turn_in_force(None, None, None) == "rust-browser-control"@,
{
}

/// A rollout file is one of the session where its name holds the session and
/// ends as such files do.
pub proof fn law_rollout_of_session(before: Seq<char>, session: Seq<char>, behind: Seq<char>)
    ensures
        records(before + session + behind + ".jsonl"@, session),
{
    let name = before + session + behind + ".jsonl"@;
    let at = before.len() as int;
    assert(name.subrange(at, at + session.len()) =~= session);
    assert(name.skip(name.len() - ".jsonl"@.len()) =~= ".jsonl"@);
}

} // verus!
