//! JSON documents: the library's own type for them, what it means, and the
//! passage to and from the document type of `serde_json`, which reads and
//! writes the texts.
use vstd::prelude::*;

verus! {

broadcast use vstd::string::group_string_axioms;

/// The document type of `serde_json`.
#[verifier::external_type_specification]
#[verifier::external_body]
pub struct ExValue(serde_json::Value);

/// The number type of `serde_json`.
#[verifier::external_type_specification]
#[verifier::external_body]
pub struct ExNumber(serde_json::Number);

/// The error type of `serde_json`.
#[verifier::external_type_specification]
#[verifier::external_body]
pub struct ExError(serde_json::Error);

/// A JSON number: an integer that fits 64 bits, or a double given by its bits.
pub enum NumberView {
    Unsigned(u64),
    Negative(i64),
    Double(u64),
}

/// What a JSON document says.
pub enum JsonView {
    Null,
    Bool(bool),
    Number(NumberView),
    Text(Seq<char>),
    Array(Seq<JsonView>),
    Object(Map<Seq<char>, JsonView>),
}

/// What a number of `serde_json` holds: `Number` is one of an unsigned integer,
/// an integer below zero, and a finite double.
pub uninterp spec fn number_view(n: serde_json::Number) -> NumberView;

/// What a document of `serde_json` holds.
pub uninterp spec fn value_view(v: serde_json::Value) -> JsonView;

/// The text that an error of `serde_json` shows.
pub uninterp spec fn error_view(e: serde_json::Error) -> Seq<char>;

/// What `serde_json::from_slice` makes of a text: the document that it writes,
/// or the words of the error.
pub uninterp spec fn parsed(text: Seq<u8>) -> Result<JsonView, Seq<char>>;

/// The text that `serde_json::to_string` writes for a document.
pub uninterp spec fn compact(v: JsonView) -> Seq<char>;

/// The text that `serde_json::to_string_pretty` writes for a document.
pub uninterp spec fn pretty(v: JsonView) -> Seq<char>;

/// The double that `serde_json::Number::as_f64` gives for a number.
pub uninterp spec fn as_double(n: NumberView) -> NumberView;

/// A JSON document. Where an object names a key twice, the later field counts.
#[derive(Debug, PartialEq)]
pub enum Json {
    Null,
    Bool(bool),
    Number(serde_json::Number),
    Text(String),
    Array(Vec<Json>),
    Object(Vec<(String, Json)>),
}

/// One level of a document of `serde_json`.
pub enum JsonNode {
    Null,
    Bool(bool),
    Number(serde_json::Number),
    Text(String),
    Array(Vec<serde_json::Value>),
    Object(Vec<(String, serde_json::Value)>),
}

/// The object with these fields, where a later one replaces an earlier one of
/// the same key.
pub open spec fn fields_map(fields: Seq<(Seq<char>, JsonView)>) -> Map<Seq<char>, JsonView>
    decreases fields.len(),
{
    if fields.len() == 0 {
        Map::empty()
    } else {
        fields_map(fields.drop_last()).insert(fields.last().0, fields.last().1)
    }
}

/// What a document holds.
pub open spec fn json_view(j: Json) -> JsonView
    decreases j,
{
    match j {
        Json::Null => JsonView::Null,
        Json::Bool(b) => JsonView::Bool(b),
        Json::Number(n) => JsonView::Number(number_view(n)),
        Json::Text(s) => JsonView::Text(s@),
        Json::Array(items) => JsonView::Array(json_items(items@)),
        Json::Object(fields) => JsonView::Object(fields_map(json_fields(fields@))),
    }
}

/// What the items of an array hold.
pub open spec fn json_items(items: Seq<Json>) -> Seq<JsonView>
    decreases items,
{
    Seq::new(
        items.len(),
        |i: int|
            if 0 <= i < items.len() {
                json_view(items[i])
            } else {
                JsonView::Null
            },
    )
}

/// What the fields of an object hold.
pub open spec fn json_fields(fields: Seq<(String, Json)>) -> Seq<(Seq<char>, JsonView)>
    decreases fields,
{
    Seq::new(
        fields.len(),
        |i: int|
            if 0 <= i < fields.len() {
                (fields[i].0@, json_view(fields[i].1))
            } else {
                (Seq::empty(), JsonView::Null)
            },
    )
}

impl View for Json {
    type V = JsonView;

    open spec fn view(&self) -> JsonView {
        json_view(*self)
    }
}

/// The views of a list of documents.
pub open spec fn items_view(items: Seq<Json>) -> Seq<JsonView> {
    items.map_values(|j: Json| j@)
}

/// The views of a list of fields.
pub open spec fn fields_view(fields: Seq<(String, Json)>) -> Seq<(Seq<char>, JsonView)> {
    fields.map_values(|f: (String, Json)| (f.0@, f.1@))
}

/// An array holds what its items hold, an object what its fields hold.
pub broadcast proof fn lemma_json_view(j: Json)
    ensures
        #![trigger j@]
        j matches Json::Array(items) ==> j@ == JsonView::Array(items_view(items@)),
        j matches Json::Object(fields) ==> j@ == JsonView::Object(
            fields_map(fields_view(fields@)),
        ),
{
    match j {
        Json::Array(items) => {
            assert(json_items(items@) =~= items_view(items@));
        },
        Json::Object(fields) => {
            assert(json_fields(fields@) =~= fields_view(fields@));
        },
        _ => {},
    }
}

/// What one level holds, given what the levels below hold.
pub open spec fn node_view(node: JsonNode) -> JsonView {
    match node {
        JsonNode::Null => JsonView::Null,
        JsonNode::Bool(b) => JsonView::Bool(b),
        JsonNode::Number(n) => JsonView::Number(number_view(n)),
        JsonNode::Text(s) => JsonView::Text(s@),
        JsonNode::Array(items) => JsonView::Array(
            items@.map_values(|v: serde_json::Value| value_view(v)),
        ),
        JsonNode::Object(fields) => JsonView::Object(fields_map(value_fields(fields@))),
    }
}

/// The views of the fields of one level.
pub open spec fn value_fields(fields: Seq<(String, serde_json::Value)>) -> Seq<
    (Seq<char>, JsonView),
> {
    fields.map_values(|f: (String, serde_json::Value)| (f.0@, value_view(f.1)))
}

/// No key occurs twice.
pub open spec fn distinct_keys(fields: Seq<(Seq<char>, JsonView)>) -> bool {
    forall|i: int, j: int|
        0 <= i < j < fields.len() ==> (#[trigger] fields[i]).0 != (#[trigger] fields[j]).0
}

/// The fields of an object never name a key twice.
pub open spec fn node_ok(node: JsonNode) -> bool {
    node matches JsonNode::Object(fields) ==> distinct_keys(value_fields(fields@))
}

/// Takes one level off a `serde_json::Value`: each variant hands over what it
/// holds, and the map of an object its entries, each key once.
#[verifier::external_body]
fn node_of(v: serde_json::Value) -> (node: JsonNode)
    ensures
        node_view(node) == value_view(v),
        node_ok(node),
{
    match v {
        serde_json::Value::Null => JsonNode::Null,
        serde_json::Value::Bool(b) => JsonNode::Bool(b),
        serde_json::Value::Number(n) => JsonNode::Number(n),
        serde_json::Value::String(s) => JsonNode::Text(s),
        serde_json::Value::Array(items) => JsonNode::Array(items),
        serde_json::Value::Object(fields) => JsonNode::Object(fields.into_iter().collect()),
    }
}

/// Makes a `serde_json::Value` out of one level; the entries of an object are
/// collected into its map.
#[verifier::external_body]
fn value_of(node: JsonNode) -> (v: serde_json::Value)
    requires
        node_ok(node),
    ensures
        value_view(v) == node_view(node),
{
    match node {
        JsonNode::Null => serde_json::Value::Null,
        JsonNode::Bool(b) => serde_json::Value::Bool(b),
        JsonNode::Number(n) => serde_json::Value::Number(n),
        JsonNode::Text(s) => serde_json::Value::String(s),
        JsonNode::Array(items) => serde_json::Value::Array(items),
        JsonNode::Object(fields) => serde_json::Value::Object(fields.into_iter().collect()),
    }
}

/// What came of reading a text.
pub open spec fn reading(r: Result<serde_json::Value, serde_json::Error>) -> Result<
    JsonView,
    Seq<char>,
> {
    match r {
        Ok(v) => Ok(value_view(v)),
        Err(e) => Err(error_view(e)),
    }
}

/// `serde_json::from_slice` into a `Value`: the document that the text writes,
/// or an error.
#[verifier::external_body]
fn value_from_slice(text: &[u8]) -> (r: Result<serde_json::Value, serde_json::Error>)
    ensures
        reading(r) == parsed(text@),
{
    serde_json::from_slice(text)
}

/// The text that a `serde_json::Error` shows.
#[verifier::external_body]
fn error_text(e: &serde_json::Error) -> (text: String)
    ensures
        text@ == error_view(*e),
{
    e.to_string()
}

/// `serde_json::to_string` of a `Value`: a document always has a text.
#[verifier::external_body]
fn value_to_string(v: &serde_json::Value) -> (text: String)
    ensures
        text@ == compact(value_view(*v)),
{
    serde_json::to_string(v).unwrap()
}

/// `serde_json::to_string_pretty` of a `Value`.
#[verifier::external_body]
fn value_to_string_pretty(v: &serde_json::Value) -> (text: String)
    ensures
        text@ == pretty(value_view(*v)),
{
    serde_json::to_string_pretty(v).unwrap()
}

/// `serde_json::to_vec` of a `Value`: the bytes of the text that
/// `serde_json::to_string` writes.
#[verifier::external_body]
fn value_to_vec(v: &serde_json::Value) -> (bytes: Vec<u8>)
    ensures
        bytes@ == vstd::utf8::encode_utf8(compact(value_view(*v))),
{
    serde_json::to_vec(v).unwrap()
}

/// `serde_json::Number` from an unsigned integer holds that integer.
#[verifier::external_body]
fn number_from(n: u64) -> (number: serde_json::Number)
    ensures
        number_view(number) == NumberView::Unsigned(n),
{
    serde_json::Number::from(n)
}

/// `serde_json::Number::as_u64` gives the integer of a number that holds an
/// unsigned one, and nothing for any other.
#[verifier::external_body]
fn number_as_u64(number: &serde_json::Number) -> (n: Option<u64>)
    ensures
        n == unsigned_number(number_view(*number)),
{
    number.as_u64()
}

/// `serde_json::Number::as_f64`, back in a number by `Number::from_f64`: every
/// number has a finite double, and that of a double is itself.
#[verifier::external_body]
fn number_as_double(number: &serde_json::Number) -> (double: serde_json::Number)
    ensures
        number_view(double) == as_double(number_view(*number)),
        number_view(double) is Double,
        number_view(*number) is Double ==> number_view(double) == number_view(*number),
{
    number.as_f64().and_then(serde_json::Number::from_f64).unwrap()
}

/// The clone of a `serde_json::Number` holds the same number.
pub assume_specification[ <serde_json::Number as Clone>::clone ](
    n: &serde_json::Number,
) -> (copy: serde_json::Number)
    ensures
        number_view(copy) == number_view(*n),
;

/// The integer of a number that holds an unsigned one.
pub open spec fn unsigned_number(n: NumberView) -> Option<u64> {
    match n {
        NumberView::Unsigned(u) => Some(u),
        _ => None,
    }
}

/// The value of a key of an object.
pub open spec fn field(v: JsonView, key: Seq<char>) -> Option<JsonView> {
    match v {
        JsonView::Object(m) => if m.dom().contains(key) {
            Some(m[key])
        } else {
            None
        },
        _ => None,
    }
}

/// The value of a key of an object that may be missing.
pub open spec fn then_field(v: Option<JsonView>, key: Seq<char>) -> Option<JsonView> {
    match v {
        Some(v) => field(v, key),
        None => None,
    }
}

/// The text that a value is, if it is one.
pub open spec fn as_text(v: Option<JsonView>) -> Option<Seq<char>> {
    match v {
        Some(JsonView::Text(s)) => Some(s),
        _ => None,
    }
}

/// The unsigned integer that a value is, if it is one.
pub open spec fn as_unsigned(v: Option<JsonView>) -> Option<u64> {
    match v {
        Some(JsonView::Number(n)) => unsigned_number(n),
        _ => None,
    }
}

/// The truth value that a value is, if it is one.
pub open spec fn as_flag(v: Option<JsonView>) -> Option<bool> {
    match v {
        Some(JsonView::Bool(b)) => Some(b),
        _ => None,
    }
}

/// The view of an optional document.
pub open spec fn optional_json(j: Option<&Json>) -> Option<JsonView> {
    match j {
        Some(j) => Some(j@),
        None => None,
    }
}

/// The last field of a key is the one that counts.
pub proof fn lemma_fields_last(fields: Seq<(Seq<char>, JsonView)>, at: int)
    requires
        0 <= at < fields.len(),
        forall|k: int| at < k < fields.len() ==> (#[trigger] fields[k]).0 != fields[at].0,
    ensures
        fields_map(fields).dom().contains(fields[at].0),
        fields_map(fields)[fields[at].0] == fields[at].1,
    decreases fields.len(),
{
    if at < fields.len() - 1 {
        lemma_fields_last(fields.drop_last(), at);
    }
}

/// A key without a field is not in the object.
pub proof fn lemma_fields_absent(fields: Seq<(Seq<char>, JsonView)>, key: Seq<char>)
    requires
        forall|k: int| 0 <= k < fields.len() ==> (#[trigger] fields[k]).0 != key,
    ensures
        !fields_map(fields).dom().contains(key),
    decreases fields.len(),
{
    if fields.len() > 0 {
        lemma_fields_absent(fields.drop_last(), key);
    }
}

proof fn lemma_fields_finite(fields: Seq<(Seq<char>, JsonView)>)
    ensures
        fields_map(fields).dom().finite(),
    decreases fields.len(),
{
    if fields.len() > 0 {
        lemma_fields_finite(fields.drop_last());
    }
}

impl Json {
    /// A text.
    pub fn text(text: &str) -> (j: Json)
        ensures
            j@ == JsonView::Text(text@),
    {
        Json::Text(text.to_owned())
    }

    /// An unsigned integer.
    pub fn unsigned(n: u64) -> (j: Json)
        ensures
            j@ == JsonView::Number(NumberView::Unsigned(n)),
    {
        Json::Number(number_from(n))
    }

    /// An array of one item.
    pub fn single(item: Json) -> (j: Json)
        ensures
            j@ == JsonView::Array(seq![item@]),
    {
        broadcast use lemma_json_view;

        let mut items: Vec<Json> = Vec::new();
        let ghost view = item@;
        items.push(item);
        assert(items_view(items@) =~= seq![view]);
        Json::Array(items)
    }

    /// The value of `key`, where the document is an object that has it.
    pub fn get(&self, key: &str) -> (found: Option<&Json>)
        ensures
            optional_json(found) == field(self@, key@),
    {
        broadcast use lemma_json_view;

        match self {
            Json::Object(fields) => {
                let ghost views = fields_view(fields@);
                let mut i: usize = fields.len();
                while i > 0
                    invariant
                        self@ == JsonView::Object(fields_map(views)),
                        i <= fields@.len(),
                        views == fields_view(fields@),
                        forall|k: int|
                            i <= k < fields@.len() ==> (#[trigger] views[k]).0 != key@,
                    decreases i,
                {
                    i = i - 1;
                    assert(views[i as int].0 == fields@[i as int].0@);
                    if fields[i].0 == key.to_owned() {
                        proof {
                            lemma_fields_last(views, i as int);
                        }
                        return Some(&fields[i].1);
                    }
                }
                proof {
                    lemma_fields_absent(views, key@);
                }
                None
            },
            _ => None,
        }
    }

    /// As [`Json::get`], of a document that is then dropped.
    pub fn take(self, key: &str) -> (found: Option<Json>)
        ensures
            (match found {
                Some(j) => Some(j@),
                None => None,
            }) == field(self@, key@),
    {
        broadcast use lemma_json_view;

        match self {
            Json::Object(all) => {
                let mut fields = all;
                let ghost views = fields_view(fields@);
                assert(fields_view(fields@) =~= views.take(fields@.len() as int));
                while fields.len() > 0
                    invariant
                        self@ == JsonView::Object(fields_map(views)),
                        fields@.len() <= views.len(),
                        fields_view(fields@) == views.take(fields@.len() as int),
                        forall|k: int|
                            fields@.len() <= k < views.len() ==> (#[trigger] views[k]).0 != key@,
                    decreases fields@.len(),
                {
                    let ghost before = fields@;
                    let ghost at = before.len() - 1;
                    assert(fields_view(before)[at] == views[at]);
                    if let Some(last) = fields.pop() {
                        assert(views[at].0 == last.0@);
                        if last.0 == key.to_owned() {
                            proof {
                                lemma_fields_last(views, at);
                            }
                            return Some(last.1);
                        }
                    }
                    assert(fields_view(fields@) =~= views.take(fields@.len() as int)) by {
                        assert forall|k: int| 0 <= k < fields@.len() implies fields_view(
                            fields@,
                        )[k] == views[k] by {
                            assert(fields_view(before)[k] == views.take(before.len() as int)[k]);
                        }
                    }
                }
                proof {
                    lemma_fields_absent(views, key@);
                }
                None
            },
            _ => None,
        }
    }

    /// The text that the document is, if it is one.
    pub fn as_str(&self) -> (text: Option<&str>)
        ensures
            crate::text::optional_str(text) == as_text(Some(self@)),
    {
        match self {
            Json::Text(s) => Some(s.as_str()),
            _ => None,
        }
    }

    /// The unsigned integer that the document is, if it is one.
    pub fn as_u64(&self) -> (n: Option<u64>)
        ensures
            n == as_unsigned(Some(self@)),
    {
        match self {
            Json::Number(n) => number_as_u64(n),
            _ => None,
        }
    }

    /// The truth value that the document is, if it is one.
    pub fn as_bool(&self) -> (b: Option<bool>)
        ensures
            b == as_flag(Some(self@)),
    {
        match self {
            Json::Bool(b) => Some(*b),
            _ => None,
        }
    }
}

/// Two lists of fields with the same last field for every key make the same
/// object.
proof fn lemma_fields_same(
    kept: Seq<(Seq<char>, JsonView)>,
    all: Seq<(Seq<char>, JsonView)>,
    from: Seq<int>,
)
    requires
        distinct_keys(kept),
        from.len() == kept.len(),
        forall|k: int|
            0 <= k < kept.len() ==> 0 <= #[trigger] from[k] < all.len() && kept[k] == all[from[k]]
                && is_last(all, from[k]),
        forall|at: int|
            0 <= at < all.len() && #[trigger] is_last(all, at) ==> from.contains(at),
    ensures
        fields_map(kept) == fields_map(all),
{
    let a = fields_map(kept);
    let b = fields_map(all);
    assert forall|key: Seq<char>| #[trigger]
        a.dom().contains(key) == b.dom().contains(key) && (a.dom().contains(key) ==> a[key]
            == b[key]) by {
        if forall|k: int| 0 <= k < all.len() ==> (#[trigger] all[k]).0 != key {
            lemma_fields_absent(all, key);
            assert forall|k: int| 0 <= k < kept.len() implies (#[trigger] kept[k]).0 != key by {
                assert(all[from[k]].0 != key);
            }
            lemma_fields_absent(kept, key);
        } else {
            let some = choose|k: int| 0 <= k < all.len() && (#[trigger] all[k]).0 == key;
            let at = lemma_last_exists(all, some);
            lemma_fields_last(all, at);
            assert(is_last(all, at));
            let k = choose|k: int| 0 <= k < from.len() && from[k] == at;
            assert(kept[k] == all[at]);
            assert forall|m: int| k < m < kept.len() implies (#[trigger] kept[m]).0 != kept[k].0 by {
                assert(kept[k].0 != kept[m].0);
            }
            lemma_fields_last(kept, k);
        }
    }
    assert(a =~= b);
}

/// No later field has the key of this one.
pub open spec fn is_last(all: Seq<(Seq<char>, JsonView)>, at: int) -> bool {
    forall|k: int| at < k < all.len() ==> (#[trigger] all[k]).0 != all[at].0
}

proof fn lemma_last_exists(all: Seq<(Seq<char>, JsonView)>, some: int) -> (at: int)
    requires
        0 <= some < all.len(),
    ensures
        some <= at < all.len(),
        all[at].0 == all[some].0,
        is_last(all, at),
    decreases all.len() - some,
{
    if is_last(all, some) {
        some
    } else {
        let next = choose|k: int| some < k < all.len() && (#[trigger] all[k]).0 == all[some].0;
        lemma_last_exists(all, next)
    }
}

/// Whether a later field has the key of the field `at`.
fn named_again(fields: &Vec<(String, Json)>, at: usize) -> (again: bool)
    requires
        at < fields@.len(),
    ensures
        again == !is_last(fields_view(fields@), at as int),
{
    let ghost views = fields_view(fields@);
    let n = fields.len();
    let mut k: usize = at + 1;
    while k < n
        invariant
            at < k <= n,
            n == fields@.len(),
            views == fields_view(fields@),
            forall|m: int| at < m < k ==> (#[trigger] views[m]).0 != views[at as int].0,
        decreases fields@.len() - k,
    {
        assert(views[k as int].0 == fields@[k as int].0@);
        assert(views[at as int].0 == fields@[at as int].0@);
        if fields[k].0 == fields[at].0 {
            return true;
        }
        k = k + 1;
    }
    false
}

/// The document as `serde_json` holds it.
fn to_value(j: &Json) -> (v: serde_json::Value)
    ensures
        value_view(v) == j@,
    decreases j,
{
    broadcast use lemma_json_view;

    match j {
        Json::Null => value_of(JsonNode::Null),
        Json::Bool(b) => value_of(JsonNode::Bool(*b)),
        Json::Number(n) => value_of(JsonNode::Number(n.clone())),
        Json::Text(s) => value_of(JsonNode::Text(s.clone())),
        Json::Array(items) => {
            let mut values: Vec<serde_json::Value> = Vec::new();
            let mut i: usize = 0;
            while i < items.len()
                invariant
                    i <= items@.len(),
                    *j == Json::Array(*items),
                    values@.len() == i,
                    forall|k: int| 0 <= k < i ==> value_view(#[trigger] values@[k]) == items@[k]@,
                decreases items@.len() - i,
            {
                assert(decreases_to!(*j => j->Array_0));
                assert(decreases_to!(*items => items@));
                assert(decreases_to!(items@ => items@[i as int]));
                values.push(to_value(&items[i]));
                i = i + 1;
            }
            assert(values@.map_values(|v: serde_json::Value| value_view(v)) =~= items_view(items@));
            value_of(JsonNode::Array(values))
        },
        Json::Object(fields) => {
            let ghost all = fields_view(fields@);
            let ghost mut from: Seq<int> = Seq::empty();
            let mut kept: Vec<(String, serde_json::Value)> = Vec::new();
            let mut i: usize = 0;
            while i < fields.len()
                invariant
                    i <= fields@.len(),
                    *j == Json::Object(*fields),
                    all == fields_view(fields@),
                    from.len() == kept@.len(),
                    forall|k: int|
                        0 <= k < from.len() ==> 0 <= #[trigger] from[k] < i && value_fields(
                            kept@,
                        )[k] == all[from[k]] && is_last(all, from[k]),
                    forall|k: int, m: int| 0 <= k < m < from.len() ==> from[k] < from[m],
                    forall|at: int| 0 <= at < i && #[trigger] is_last(all, at) ==> from.contains(at),
                decreases fields@.len() - i,
            {
                let ghost old_from = from;
                let ghost old_kept = kept@;
                if !named_again(fields, i) {
                    assert(decreases_to!(*j => j->Object_0));
                    assert(decreases_to!(*fields => fields@));
                    assert(decreases_to!(fields@ => fields@[i as int]));
                    assert(decreases_to!(fields@[i as int] => fields@[i as int].1));
                    kept.push((fields[i].0.clone(), to_value(&fields[i].1)));
                    proof {
                        from = from.push(i as int);
                    }
                    assert(value_fields(kept@)[old_from.len() as int] == all[i as int]);
                    assert forall|k: int| 0 <= k < from.len() implies 0 <= #[trigger] from[k] < i
                        + 1 && value_fields(kept@)[k] == all[from[k]] && is_last(all, from[k]) by {
                        if k < old_from.len() {
                            assert(from[k] == old_from[k]);
                            assert(value_fields(kept@)[k] == value_fields(old_kept)[k]);
                        }
                    }
                    assert forall|at: int| 0 <= at < i + 1 && #[trigger] is_last(
                        all,
                        at,
                    ) implies from.contains(at) by {
                        if at < i {
                            let k = choose|k: int| 0 <= k < old_from.len() && old_from[k] == at;
                            assert(from[k] == at);
                        } else {
                            assert(from[old_from.len() as int] == at);
                        }
                    }
                }
                i = i + 1;
            }
            proof {
                let views = value_fields(kept@);
                assert forall|a: int, b: int| 0 <= a < b < views.len() implies (
                #[trigger] views[a]).0 != (#[trigger] views[b]).0 by {
                    assert(from[a] < from[b]);
                    assert(is_last(all, from[a]));
                    assert(all[from[b]].0 != all[from[a]].0);
                }
                lemma_fields_same(views, all, from);
            }
            value_of(JsonNode::Object(kept))
        },
    }
}

/// The document that `serde_json` holds.
fn from_value(v: serde_json::Value) -> (j: Json)
    ensures
        j@ == value_view(v),
    decreases value_view(v),
{
    broadcast use lemma_json_view;

    match node_of(v) {
        JsonNode::Null => Json::Null,
        JsonNode::Bool(b) => Json::Bool(b),
        JsonNode::Number(n) => Json::Number(n),
        JsonNode::Text(s) => Json::Text(s),
        JsonNode::Array(all) => {
            let ghost views = all@.map_values(|v: serde_json::Value| value_view(v));
            let mut rest = all;
            let mut backwards: Vec<Json> = Vec::new();
            while rest.len() > 0
                invariant
                    value_view(v) == JsonView::Array(views),
                    rest@.len() + backwards@.len() == views.len(),
                    forall|k: int| 0 <= k < rest@.len() ==> value_view(#[trigger] rest@[k]) == views[k],
                    forall|k: int|
                        0 <= k < backwards@.len() ==> (#[trigger] backwards@[k])@ == views[views.len()
                            - 1 - k],
                decreases rest@.len(),
            {
                let ghost at = rest@.len() - 1;
                if let Some(last) = rest.pop() {
                    assert(value_view(last) == views[at]);
                    assert(decreases_to!(value_view(v) => value_view(v)->Array_0));
                    assert(decreases_to!(views => views[at]));
                    backwards.push(from_value(last));
                }
            }
            let mut items: Vec<Json> = Vec::new();
            while backwards.len() > 0
                invariant
                    items@.len() + backwards@.len() == views.len(),
                    forall|k: int| 0 <= k < items@.len() ==> (#[trigger] items@[k])@ == views[k],
                    forall|k: int|
                        0 <= k < backwards@.len() ==> (#[trigger] backwards@[k])@ == views[views.len()
                            - 1 - k],
                decreases backwards@.len(),
            {
                if let Some(item) = backwards.pop() {
                    items.push(item);
                }
            }
            assert(items_view(items@) =~= views);
            Json::Array(items)
        },
        JsonNode::Object(all) => {
            let ghost views = value_fields(all@);
            let ghost object = fields_map(views);
            let mut rest = all;
            let mut fields: Vec<(String, Json)> = Vec::new();
            proof {
                lemma_fields_finite(views);
            }
            while rest.len() > 0
                invariant
                    value_view(v) == JsonView::Object(object),
                    object == fields_map(views),
                    object.dom().finite(),
                    distinct_keys(views),
                    rest@.len() + fields@.len() == views.len(),
                    forall|k: int|
                        0 <= k < rest@.len() ==> value_fields(rest@)[k] == #[trigger] views[k],
                    forall|k: int|
                        0 <= k < fields@.len() ==> #[trigger] fields_view(fields@)[k]
                            == views[views.len() - 1 - k],
                decreases rest@.len(),
            {
                let ghost at = rest@.len() - 1;
                let ghost before = rest@;
                let ghost old_fields = fields@;
                if let Some(last) = rest.pop() {
                    assert(value_fields(before)[at] == views[at]);
                    proof {
                        assert forall|k: int| at < k < views.len() implies (#[trigger] views[k]).0
                            != views[at].0 by {
                            assert(views[at].0 != views[k].0);
                        }
                        lemma_fields_last(views, at);
                    }
                    assert(object[last.0@] == value_view(last.1));
                    let (key, value) = last;
                    assert(decreases_to!(value_view(v) => value_view(v)->Object_0));
                    assert(decreases_to!(object => object[key@]));
                    fields.push((key, from_value(value)));
                    assert forall|k: int| 0 <= k < fields@.len() implies #[trigger] fields_view(
                        fields@,
                    )[k] == views[views.len() - 1 - k] by {
                        if k < old_fields.len() {
                            assert(fields_view(fields@)[k] == fields_view(old_fields)[k]);
                        }
                    }
                    assert forall|k: int| 0 <= k < rest@.len() implies value_fields(rest@)[k]
                        == #[trigger] views[k] by {
                        assert(value_fields(before)[k] == views[k]);
                    }
                }
            }
            proof {
                let backwards = fields_view(fields@);
                let from = Seq::new(backwards.len(), |k: int| views.len() - 1 - k);
                assert forall|a: int, b: int| 0 <= a < b < backwards.len() implies (
                #[trigger] backwards[a]).0 != (#[trigger] backwards[b]).0 by {
                    assert(views[views.len() - 1 - b].0 != views[views.len() - 1 - a].0);
                }
                assert forall|k: int| 0 <= k < backwards.len() implies 0 <= #[trigger] from[k]
                    < views.len() && backwards[k] == views[from[k]] && is_last(views, from[k]) by {
                    assert(fields_view(fields@)[k] == views[views.len() - 1 - k]);
                    assert forall|m: int| from[k] < m < views.len() implies (#[trigger] views[m]).0
                        != views[from[k]].0 by {
                        assert(views[from[k]].0 != views[m].0);
                    }
                }
                assert forall|at: int| 0 <= at < views.len() && #[trigger] is_last(
                    views,
                    at,
                ) implies from.contains(at) by {
                    assert(from[views.len() - 1 - at] == at);
                }
                lemma_fields_same(backwards, views, from);
            }
            Json::Object(fields)
        },
    }
}

/// Reads the document that a text writes.
pub fn parse_json(text: &[u8]) -> (r: Result<Json, String>)
    ensures
        json_reading(r) == parsed(text@),
{
    match value_from_slice(text) {
        Ok(v) => Ok(from_value(v)),
        Err(e) => Err(error_text(&e)),
    }
}

/// What came of reading a text.
pub open spec fn json_reading(r: Result<Json, String>) -> Result<JsonView, Seq<char>> {
    match r {
        Ok(j) => Ok(j@),
        Err(e) => Err(e@),
    }
}

/// The text of a document on one line.
pub fn json_text(j: &Json) -> (text: String)
    ensures
        text@ == compact(j@),
{
    value_to_string(&to_value(j))
}

/// The text of a document, indented.
pub fn json_pretty(j: &Json) -> (text: String)
    ensures
        text@ == pretty(j@),
{
    value_to_string_pretty(&to_value(j))
}

/// The text of a document on one line, as bytes.
pub fn json_bytes(j: &Json) -> (bytes: Vec<u8>)
    ensures
        bytes@ == vstd::utf8::encode_utf8(compact(j@)),
{
    value_to_vec(&to_value(j))
}

/// The number as a double.
pub fn double_of(n: &serde_json::Number) -> (double: serde_json::Number)
    ensures
        number_view(double) == as_double(number_view(*n)),
        number_view(double) is Double,
        number_view(*n) is Double ==> number_view(double) == number_view(*n),
{
    number_as_double(n)
}

/// The number that is an unsigned integer.
pub fn unsigned_of(n: u64) -> (number: serde_json::Number)
    ensures
        number_view(number) == NumberView::Unsigned(n),
{
    number_from(n)
}

/// An object's fields before any is there.
pub open spec fn no_fields() -> Seq<(Seq<char>, JsonView)> {
    Seq::empty()
}

/// The document that is an object with these fields.
pub open spec fn object(fields: Seq<(Seq<char>, JsonView)>) -> JsonView {
    JsonView::Object(fields_map(fields))
}

/// An object has the last field that it was given, and the others as before.
pub broadcast proof fn lemma_last_field(
    fields: Seq<(Seq<char>, JsonView)>,
    last: (Seq<char>, JsonView),
    key: Seq<char>,
)
    ensures
        #[trigger] field(object(fields.push(last)), key) == if key == last.0 {
            Some(last.1)
        } else {
            field(object(fields), key)
        },
{
    assert(fields.push(last).drop_last() =~= fields);
}

/// The document that is an unsigned integer.
pub open spec fn count(n: u64) -> JsonView {
    JsonView::Number(NumberView::Unsigned(n))
}

/// The fields of an object under construction.
pub struct Fields {
    list: Vec<(String, Json)>,
}

impl View for Fields {
    type V = Seq<(Seq<char>, JsonView)>;

    closed spec fn view(&self) -> Seq<(Seq<char>, JsonView)> {
        fields_view(self.list@)
    }
}

impl Fields {
    /// No fields.
    pub fn new() -> (fields: Fields)
        ensures
            fields@ == no_fields(),
    {
        let fields = Fields { list: Vec::new() };
        assert(fields@ =~= no_fields());
        fields
    }

    /// These fields and one more.
    pub fn with(self, key: &str, value: Json) -> (fields: Fields)
        ensures
            fields@ == self@.push((key@, value@)),
    {
        let mut list = self.list;
        let ghost before = fields_view(list@);
        let ghost last = (key@, value@);
        list.push((key.to_owned(), value));
        assert(fields_view(list@) =~= before.push(last));
        Fields { list }
    }

    /// The object with these fields.
    pub fn object(self) -> (j: Json)
        ensures
            j@ == object(self@),
    {
        broadcast use lemma_json_view;

        Json::Object(self.list)
    }
}

impl Json {
    /// The same document once more.
    pub fn duplicate(&self) -> (j: Json)
        ensures
            j@ == self@,
    {
        from_value(to_value(self))
    }
}

} // verus!
