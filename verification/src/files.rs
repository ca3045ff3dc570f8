//! Files: the names of screenshots, and what a directory of downloads tells.
use crate::path::{extension_is, file_name, has_extension, last_member, members};
use crate::text::{
    decimal, decimal_text, ends_with, lemma_decimal, lower_text, lowered, optional_str, split,
    string_of,
};
use vstd::prelude::*;

verus! {

broadcast use vstd::string::group_string_axioms;

/// Whether a character may stand in the name of a screenshot.
pub open spec fn is_safe(c: char) -> bool {
    ||| 'a' <= c <= 'z'
    ||| 'A' <= c <= 'Z'
    ||| '0' <= c <= '9'
    ||| c == '-'
    ||| c == '_'
    ||| c == '.'
}

/// `c`, or an underscore in the place of a character that may not stand.
pub open spec fn safe_char(c: char) -> char {
    if is_safe(c) {
        c
    } else {
        '_'
    }
}

/// The last member of the path `raw`, in safe characters.
pub open spec fn clean_name(raw: Seq<char>) -> Seq<char> {
    match file_name(raw) {
        Some(name) => name.map_values(|c: char| safe_char(c)),
        None => Seq::empty(),
    }
}

/// The name of a screenshot that was asked for by no usable name.
pub open spec fn dated_name(now_ms: nat) -> Seq<char> {
    "screenshot-"@ + decimal(now_ms) + ".png"@
}

/// The name of a screenshot taken `now_ms` milliseconds into the epoch.
pub open spec fn png_name(requested: Option<Seq<char>>, now_ms: nat) -> Seq<char> {
    match requested {
        None => dated_name(now_ms),
        Some(raw) => {
            let clean = clean_name(raw);
            if clean.len() == 0 {
                dated_name(now_ms)
            } else if ends_with(lower_text(clean), ".png"@) {
                clean
            } else {
                clean + ".png"@
            }
        },
    }
}

/// The exec form of [`safe_char`].
fn safe(c: char) -> (s: char)
    ensures
        s == safe_char(c),
{
    let u = c as u32;
    if (97 <= u && u <= 122) || (65 <= u && u <= 90) || (48 <= u && u <= 57) || c == '-' || c == '_'
        || c == '.' {
        c
    } else {
        '_'
    }
}

/// The exec form of [`dated_name`].
fn name_by_date(now_ms: u128) -> (name: String)
    ensures
        name@ == dated_name(now_ms as nat),
{
    let mut name = "screenshot-".to_owned();
    name.append(&decimal_text(now_ms));
    name.append(".png");
    name
}

/// The name of a screenshot taken `now_ms` milliseconds into the epoch: the
/// last member of the path asked for, in safe characters, with the extension
/// `.png`; or one that tells the time.
pub fn safe_png_filename(requested: Option<&str>, now_ms: u128) -> (name: String)
    ensures
        name@ == png_name(optional_str(requested), now_ms as nat),
{
    let raw = match requested {
        Some(raw) => raw,
        None => return name_by_date(now_ms),
    };
    let base = match last_member(raw) {
        Some(name) => name,
        None => return name_by_date(now_ms),
    };
    let mut clean: Vec<char> = Vec::new();
    let mut i: usize = 0;
    assert(clean@ =~= base@.take(0).map_values(|c: char| safe_char(c)));
    while i < base.len()
        invariant
            i <= base@.len(),
            clean@ == base@.take(i as int).map_values(|c: char| safe_char(c)),
        decreases base@.len() - i,
    {
        clean.push(safe(base[i]));
        assert(clean@ =~= base@.take(i + 1).map_values(|c: char| safe_char(c)));
        i = i + 1;
    }
    assert(base@.take(i as int) =~= base@);
    assert(clean@ == clean_name(raw@));
    if clean.len() == 0 {
        return name_by_date(now_ms);
    }
    let mut name = string_of(&clean);
    let lower = crate::text::chars_of(&lowered(&name));
    if !crate::text::has_suffix(&lower, &crate::text::chars_of(".png")) {
        name.append(".png");
    }
    name
}

/// How large a file is and when it was last changed, in nanoseconds into the
/// epoch, where that is known.
#[derive(Clone, Copy, Debug, PartialEq, Eq, Structural)]
pub struct Stamp {
    pub size: u64,
    pub modified: Option<i128>,
}

/// An entry of a directory.
#[derive(Debug)]
pub struct Listed {
    pub name: Vec<u8>,
    pub is_file: bool,
    pub stamp: Stamp,
}

/// What an entry of a directory says.
pub struct ListedView {
    pub name: Seq<u8>,
    pub is_file: bool,
    pub stamp: Stamp,
}

impl View for Listed {
    type V = ListedView;

    open spec fn view(&self) -> ListedView {
        ListedView { name: self.name@, is_file: self.is_file, stamp: self.stamp }
    }
}

/// The views of a list of entries.
pub open spec fn listing_view(listing: Seq<Listed>) -> Seq<ListedView> {
    listing.map_values(|e: Listed| e@)
}

/// The files of a directory, by name.
pub open spec fn files_of(listing: Seq<ListedView>) -> Map<Seq<u8>, Stamp>
    decreases listing.len(),
{
    if listing.len() == 0 {
        Map::empty()
    } else {
        let before = files_of(listing.drop_last());
        if listing.last().is_file {
            before.insert(listing.last().name, listing.last().stamp)
        } else {
            before
        }
    }
}

/// The order of file names: byte by byte, a name before its extensions.
pub open spec fn precedes(a: Seq<u8>, b: Seq<u8>) -> bool
    decreases a.len(),
{
    if b.len() == 0 {
        false
    } else if a.len() == 0 {
        true
    } else if a[0] != b[0] {
        a[0] < b[0]
    } else {
        precedes(a.drop_first(), b.drop_first())
    }
}

/// No name precedes itself, and of two names one precedes the other.
pub proof fn lemma_precedes_total(a: Seq<u8>, b: Seq<u8>)
    ensures
        !precedes(a, a),
        precedes(a, b) ==> !precedes(b, a),
        precedes(a, b) || precedes(b, a) || a == b,
    decreases a.len(),
{
    if a.len() > 0 {
        if b.len() > 0 {
            lemma_precedes_total(a.drop_first(), b.drop_first());
            if a[0] == b[0] && a.drop_first() == b.drop_first() {
                assert(a =~= seq![a[0]] + a.drop_first());
                assert(b =~= seq![b[0]] + b.drop_first());
            }
        } else {
            lemma_precedes_total(a.drop_first(), b);
        }
    } else if b.len() == 0 {
        assert(a =~= b);
    }
}

/// Names are ordered in a chain.
pub proof fn lemma_precedes_chain(a: Seq<u8>, b: Seq<u8>, c: Seq<u8>)
    requires
        precedes(a, b),
        precedes(b, c),
    ensures
        precedes(a, c),
    decreases a.len(),
{
    if a.len() > 0 && b.len() > 0 && c.len() > 0 && a[0] == b[0] && b[0] == c[0] {
        lemma_precedes_chain(a.drop_first(), b.drop_first(), c.drop_first());
    }
}

/// The exec form of [`precedes`].
fn comes_before(a: &Vec<u8>, b: &Vec<u8>) -> (r: bool)
    ensures
        r == precedes(a@, b@),
{
    let mut i: usize = 0;
    assert(a@.skip(0) =~= a@);
    assert(b@.skip(0) =~= b@);
    while i < a.len() && i < b.len() && a[i] == b[i]
        invariant
            i <= a@.len(),
            i <= b@.len(),
            precedes(a@, b@) == precedes(a@.skip(i as int), b@.skip(i as int)),
        decreases a@.len() - i,
    {
        assert(a@.skip(i as int).drop_first() =~= a@.skip(i + 1));
        assert(b@.skip(i as int).drop_first() =~= b@.skip(i + 1));
        i = i + 1;
    }
    if i == b.len() {
        false
    } else if i == a.len() {
        true
    } else {
        a[i] < b[i]
    }
}

/// The files of a directory, in the order of their names.
#[derive(Debug)]
pub struct FileState {
    entries: Vec<(Vec<u8>, Stamp)>,
}

/// Some names with their stamps, each name before the next.
pub open spec fn in_order(entries: Seq<(Vec<u8>, Stamp)>) -> bool {
    forall|i: int, j: int|
        0 <= i < j < entries.len() ==> precedes(
            (#[trigger] entries[i]).0@,
            (#[trigger] entries[j]).0@,
        )
}

/// Whether an entry has this name.
pub open spec fn has_name(entries: Seq<(Vec<u8>, Stamp)>, name: Seq<u8>) -> bool {
    exists|i: int| 0 <= i < entries.len() && (#[trigger] entries[i]).0@ == name
}

/// The stamp of the entry of this name.
pub open spec fn stamp_of(entries: Seq<(Vec<u8>, Stamp)>, name: Seq<u8>) -> Stamp {
    entries[choose|i: int| 0 <= i < entries.len() && (#[trigger] entries[i]).0@ == name].1
}

proof fn lemma_stamp_of(entries: Seq<(Vec<u8>, Stamp)>, at: int)
    requires
        in_order(entries),
        0 <= at < entries.len(),
    ensures
        has_name(entries, entries[at].0@),
        stamp_of(entries, entries[at].0@) == entries[at].1,
{
    let name = entries[at].0@;
    let i = choose|i: int| 0 <= i < entries.len() && (#[trigger] entries[i]).0@ == name;
    lemma_precedes_total(name, name);
    if i < at {
        assert(precedes(entries[i].0@, entries[at].0@));
    } else if at < i {
        assert(precedes(entries[at].0@, entries[i].0@));
    }
}

impl View for FileState {
    type V = Map<Seq<u8>, Stamp>;

    closed spec fn view(&self) -> Map<Seq<u8>, Stamp> {
        Map::new(
            |name: Seq<u8>| has_name(self.entries@, name),
            |name: Seq<u8>| stamp_of(self.entries@, name),
        )
    }
}

impl FileState {
    /// The names are in order, so none occurs twice.
    pub closed spec fn wf(&self) -> bool {
        in_order(self.entries@)
    }

    /// No files.
    pub fn new() -> (state: FileState)
        ensures
            state.wf(),
            state@ == Map::<Seq<u8>, Stamp>::empty(),
    {
        let state = FileState { entries: Vec::new() };
        assert(state@ =~= Map::<Seq<u8>, Stamp>::empty());
        state
    }

    /// Adds a file, in the place of one of the same name.
    fn insert(&mut self, name: Vec<u8>, stamp: Stamp)
        requires
            old(self).wf(),
        ensures
            final(self).wf(),
            final(self)@ == old(self)@.insert(name@, stamp),
    {
        let ghost before = self.entries@;
        let ghost map = self@;
        let ghost key = name@;
        let mut at: usize = self.entries.len();
        while at > 0 && comes_before(&name, &self.entries[at - 1].0)
            invariant
                at <= self.entries@.len(),
                self.entries@ == before,
                forall|k: int|
                    at <= k < before.len() ==> precedes(name@, (#[trigger] before[k]).0@),
            decreases at,
        {
            at = at - 1;
        }
        proof {
            if at > 0 {
                lemma_precedes_total(name@, before[at - 1].0@);
                assert forall|k: int| 0 <= k < at - 1 implies precedes(
                    (#[trigger] before[k]).0@,
                    name@,
                ) by {
                    assert(precedes(before[k].0@, before[at - 1].0@));
                    if before[at - 1].0@ != name@ {
                        lemma_precedes_chain(before[k].0@, before[at - 1].0@, name@);
                    }
                }
            }
        }
        if at > 0 && !comes_before(&self.entries[at - 1].0, &name) {
            assert(before[at - 1].0@ == name@);
            self.entries[at - 1] = (name, stamp);
            proof {
                let after = self.entries@;
                assert(after =~= before.update(at - 1, after[at - 1]));
                assert(in_order(after)) by {
                    assert forall|i: int, j: int| 0 <= i < j < after.len() implies precedes(
                        (#[trigger] after[i]).0@,
                        (#[trigger] after[j]).0@,
                    ) by {
                        assert(after[i].0@ == before[i].0@ && after[j].0@ == before[j].0@);
                    }
                }
                assert forall|n: Seq<u8>| #[trigger] self@.dom().contains(n) == map.insert(
                    key,
                    stamp,
                ).dom().contains(n) && (self@.dom().contains(n) ==> self@[n] == map.insert(
                    key,
                    stamp,
                )[n]) by {
                    if has_name(after, n) {
                        let i = choose|i: int|
                            0 <= i < after.len() && (#[trigger] after[i]).0@ == n;
                        lemma_stamp_of(after, i);
                        lemma_stamp_of(before, i);
                        assert(before[i].0@ == n);
                        if i == at - 1 {
                            assert(n == key);
                        } else {
                            assert(n != key) by {
                                if n == key {
                                    lemma_stamp_of(before, at - 1);
                                    if i < at - 1 {
                                        assert(precedes(before[i].0@, before[at - 1].0@));
                                    } else {
                                        assert(precedes(before[at - 1].0@, before[i].0@));
                                    }
                                    lemma_precedes_total(n, n);
                                }
                            }
                        }
                    } else if has_name(before, n) {
                        let i = choose|i: int|
                            0 <= i < before.len() && (#[trigger] before[i]).0@ == n;
                        assert(after[i].0@ == n);
                    } else if n == key {
                        assert(after[at - 1].0@ == n);
                    }
                }
                assert(self@ =~= map.insert(key, stamp));
            }
        } else {
            self.entries.insert(at, (name, stamp));
            proof {
                let after = self.entries@;
                assert(after =~= before.insert(at as int, after[at as int]));
                assert forall|i: int, j: int| 0 <= i < j < after.len() implies precedes(
                    (#[trigger] after[i]).0@,
                    (#[trigger] after[j]).0@,
                ) by {
                    if i < at && j > at {
                        assert(after[i] == before[i] && after[j] == before[j - 1]);
                        assert(precedes(before[i].0@, before[j - 1].0@));
                    } else if i < at && j < at {
                        assert(after[i] == before[i] && after[j] == before[j]);
                    } else if i > at {
                        assert(after[i] == before[i - 1] && after[j] == before[j - 1]);
                    } else if j == at {
                        assert(after[i] == before[i]);
                    } else {
                        assert(after[j] == before[j - 1]);
                    }
                }
                assert(in_order(after));
                assert forall|n: Seq<u8>| #[trigger] self@.dom().contains(n) == map.insert(
                    key,
                    stamp,
                ).dom().contains(n) && (self@.dom().contains(n) ==> self@[n] == map.insert(
                    key,
                    stamp,
                )[n]) by {
                    if has_name(after, n) {
                        let i = choose|i: int|
                            0 <= i < after.len() && (#[trigger] after[i]).0@ == n;
                        lemma_stamp_of(after, i);
                        lemma_stamp_of(after, at as int);
                        if i < at {
                            assert(after[i] == before[i]);
                            lemma_stamp_of(before, i);
                            assert(precedes(after[i].0@, after[at as int].0@));
                        } else if i > at {
                            assert(after[i] == before[i - 1]);
                            lemma_stamp_of(before, i - 1);
                            assert(precedes(after[at as int].0@, after[i].0@));
                        }
                        lemma_precedes_total(n, n);
                    } else if has_name(before, n) {
                        let i = choose|i: int|
                            0 <= i < before.len() && (#[trigger] before[i]).0@ == n;
                        if i < at {
                            assert(after[i].0@ == n);
                        } else {
                            assert(after[i + 1].0@ == n);
                        }
                    } else if n == key {
                        assert(after[at as int].0@ == n);
                    }
                }
                assert(self@ =~= map.insert(key, stamp));
            }
        }
    }

    /// The stamp of the file of this name.
    fn get(&self, name: &Vec<u8>) -> (stamp: Option<Stamp>)
        requires
            self.wf(),
        ensures
            stamp == (if self@.dom().contains(name@) {
                Some(self@[name@])
            } else {
                None
            }),
    {
        let mut i: usize = 0;
        while i < self.entries.len()
            invariant
                self.wf(),
                i <= self.entries@.len(),
                forall|k: int| 0 <= k < i ==> (#[trigger] self.entries@[k]).0@ != name@,
            decreases self.entries@.len() - i,
        {
            proof {
                lemma_stamp_of(self.entries@, i as int);
                lemma_precedes_total(self.entries@[i as int].0@, name@);
            }
            if !comes_before(&self.entries[i].0, name) {
                if !comes_before(name, &self.entries[i].0) {
                    return Some(self.entries[i].1);
                }
            }
            i = i + 1;
        }
        None
    }
}

/// The files of a directory.
pub fn directory_state(listing: Vec<Listed>) -> (state: FileState)
    ensures
        state.wf(),
        state@ == files_of(listing_view(listing@)),
{
    let ghost views = listing_view(listing@);
    let mut rest = listing;
    let mut backwards: Vec<Listed> = Vec::new();
    while rest.len() > 0
        invariant
            rest@.len() + backwards@.len() == views.len(),
            forall|k: int| 0 <= k < rest@.len() ==> (#[trigger] rest@[k])@ == views[k],
            forall|k: int|
                0 <= k < backwards@.len() ==> (#[trigger] backwards@[k])@ == views[views.len() - 1
                    - k],
        decreases rest@.len(),
    {
        if let Some(entry) = rest.pop() {
            backwards.push(entry);
        }
    }
    let mut state = FileState::new();
    while backwards.len() > 0
        invariant
            state.wf(),
            backwards@.len() <= views.len(),
            state@ == files_of(views.take(views.len() - backwards@.len())),
            forall|k: int|
                0 <= k < backwards@.len() ==> (#[trigger] backwards@[k])@ == views[views.len() - 1
                    - k],
        decreases backwards@.len(),
    {
        let ghost done = views.len() - backwards@.len();
        if let Some(entry) = backwards.pop() {
            assert(views.take(done + 1).drop_last() =~= views.take(done));
            assert(views.take(done + 1).last() == entry@);
            if entry.is_file {
                state.insert(entry.name, entry.stamp);
            }
        }
    }
    assert(views.take(views.len() as int) =~= views);
    state
}

/// The extension of a download under way.
pub const PARTIAL: &'static str = "crdownload";

/// Whether a download is under way.
pub open spec fn is_partial(now: Map<Seq<u8>, Stamp>) -> bool {
    exists|name: Seq<u8>| #[trigger]
        now.dom().contains(name) && has_extension(name, vstd::utf8::encode_utf8(PARTIAL@))
}

/// Whether a file holds something and is new, or other than before.
pub open spec fn is_fresh(
    now: Map<Seq<u8>, Stamp>,
    before: Map<Seq<u8>, Stamp>,
    name: Seq<u8>,
) -> bool {
    &&& now.dom().contains(name)
    &&& now[name].size > 0
    &&& before.dom().contains(name) ==> before[name] != now[name]
}

/// Whether a file is the last of the fresh ones by name.
pub open spec fn is_last_fresh(
    now: Map<Seq<u8>, Stamp>,
    before: Map<Seq<u8>, Stamp>,
    name: Seq<u8>,
) -> bool {
    &&& is_fresh(now, before, name)
    &&& forall|other: Seq<u8>|
        is_fresh(now, before, other) && other != name ==> #[trigger] precedes(other, name)
}

/// The file that was downloaded, with its size: with no download under way,
/// the last of the fresh ones by name.
pub open spec fn completed(
    now: Map<Seq<u8>, Stamp>,
    before: Map<Seq<u8>, Stamp>,
) -> Option<(Seq<u8>, u64)> {
    if is_partial(now) {
        None
    } else if exists|name: Seq<u8>| is_last_fresh(now, before, name) {
        let name = choose|name: Seq<u8>| is_last_fresh(now, before, name);
        Some((name, now[name].size))
    } else {
        None
    }
}

/// Only one file is the last of the fresh ones.
pub proof fn lemma_last_fresh(
    now: Map<Seq<u8>, Stamp>,
    before: Map<Seq<u8>, Stamp>,
    a: Seq<u8>,
    b: Seq<u8>,
)
    requires
        is_last_fresh(now, before, a),
        is_last_fresh(now, before, b),
    ensures
        a == b,
{
    if a != b {
        assert(precedes(a, b));
        assert(precedes(b, a));
        lemma_precedes_total(a, b);
    }
}

/// The exec form of [`completed`].
pub fn completed_download(now: &FileState, before: &FileState) -> (file: Option<(Vec<u8>, u64)>)
    requires
        now.wf(),
        before.wf(),
    ensures
        (match file {
            Some(f) => Some((f.0@, f.1)),
            None => None,
        }) == completed(now@, before@),
{
    let mut i: usize = 0;
    while i < now.entries.len()
        invariant
            now.wf(),
            i <= now.entries@.len(),
            forall|k: int|
                0 <= k < i ==> !has_extension(
                    (#[trigger] now.entries@[k]).0@,
                    vstd::utf8::encode_utf8(PARTIAL@),
                ),
        decreases now.entries@.len() - i,
    {
        if extension_is(&now.entries[i].0, PARTIAL.as_bytes()) {
            proof {
                lemma_stamp_of(now.entries@, i as int);
                assert(now@.dom().contains(now.entries@[i as int].0@));
            }
            return None;
        }
        i = i + 1;
    }
    assert(!is_partial(now@)) by {
        assert forall|name: Seq<u8>| #[trigger] now@.dom().contains(name) implies !has_extension(
            name,
            vstd::utf8::encode_utf8(PARTIAL@),
        ) by {
            let k = choose|k: int|
                0 <= k < now.entries@.len() && (#[trigger] now.entries@[k]).0@ == name;
            assert(!has_extension(now.entries@[k].0@, vstd::utf8::encode_utf8(PARTIAL@)));
        }
    }
    let mut at: usize = now.entries.len();
    while at > 0
        invariant
            now.wf(),
            before.wf(),
            !is_partial(now@),
            at <= now.entries@.len(),
            forall|k: int|
                at <= k < now.entries@.len() ==> !is_fresh(
                    now@,
                    before@,
                    (#[trigger] now.entries@[k]).0@,
                ),
        decreases at,
    {
        at = at - 1;
        let stamp = now.entries[at].1;
        let ghost name = now.entries@[at as int].0@;
        proof {
            lemma_stamp_of(now.entries@, at as int);
        }
        let changed = match before.get(&now.entries[at].0) {
            Some(old) => old != stamp,
            None => true,
        };
        if changed && stamp.size > 0 {
            proof {
                assert(is_fresh(now@, before@, name));
                assert forall|other: Seq<u8>|
                    is_fresh(now@, before@, other) && other != name implies #[trigger] precedes(
                    other,
                    name,
                ) by {
                    let k = choose|k: int|
                        0 <= k < now.entries@.len() && (#[trigger] now.entries@[k]).0@ == other;
                    assert(k < at);
                    assert(precedes(now.entries@[k].0@, now.entries@[at as int].0@));
                }
                assert(is_last_fresh(now@, before@, name));
                let chosen = choose|n: Seq<u8>| is_last_fresh(now@, before@, n);
                lemma_last_fresh(now@, before@, name, chosen);
            }
            return Some((now.entries[at].0.clone(), stamp.size));
        }
    }
    assert(forall|name: Seq<u8>| !is_last_fresh(now@, before@, name)) by {
        assert forall|name: Seq<u8>| !is_fresh(now@, before@, name) by {
            if now@.dom().contains(name) {
                let k = choose|k: int|
                    0 <= k < now.entries@.len() && (#[trigger] now.entries@[k]).0@ == name;
                assert(!is_fresh(now@, before@, now.entries@[k].0@));
            }
        }
    }
    None
}

/// Whether a text is made of safe characters.
pub open spec fn is_safe_text(text: Seq<char>) -> bool {
    forall|i: int| 0 <= i < text.len() ==> is_safe(#[trigger] text[i])
}

/// The name of a screenshot is made of safe characters, so it names no
/// directory, and it ends in `.png`, in small or capital letters.
pub proof fn law_filename_is_safe(requested: Option<Seq<char>>, now_ms: nat)
    ensures
        is_safe_text(png_name(requested, now_ms)),
        !png_name(requested, now_ms).contains('/'),
        ends_with(lower_text(png_name(requested, now_ms)), ".png"@),
{
    reveal_strlit(".png");
    reveal_strlit("screenshot-");
    let name = png_name(requested, now_ms);
    let dated = dated_name(now_ms);
    lemma_decimal(now_ms);
    assert(is_safe_text(dated)) by {
        let head = "screenshot-"@;
        let digits = decimal(now_ms);
        assert forall|i: int| 0 <= i < dated.len() implies is_safe(#[trigger] dated[i]) by {
            if i < head.len() {
                assert(dated[i] == head[i]);
            } else if i < head.len() + digits.len() {
                assert(dated[i] == digits[i - head.len()]);
            } else {
                assert(dated[i] == ".png"@[i - head.len() - digits.len()]);
            }
        }
    }
    lemma_png_suffix("screenshot-"@ + decimal(now_ms));
    if requested is Some {
        let clean = clean_name(requested->0);
        assert(is_safe_text(clean));
        assert(is_safe_text(clean + ".png"@)) by {
            let whole = clean + ".png"@;
            assert forall|i: int| 0 <= i < whole.len() implies is_safe(#[trigger] whole[i]) by {
                if i < clean.len() {
                    assert(whole[i] == clean[i]);
                } else {
                    assert(whole[i] == ".png"@[i - clean.len()]);
                }
            }
        }
        lemma_png_suffix(clean);
    }
    if name.contains('/') {
        let i = choose|i: int| 0 <= i < name.len() && name[i] == '/';
        assert(is_safe(name[i]));
    }
}

proof fn lemma_png_suffix(head: Seq<char>)
    ensures
        ends_with(lower_text(head + ".png"@), ".png"@),
{
    reveal_strlit(".png");
    let whole = lower_text(head + ".png"@);
    assert(whole.skip(whole.len() - 4) =~= ".png"@);
}

proof fn lemma_split_whole(text: Seq<char>, mark: char)
    requires
        !text.contains(mark),
    ensures
        split(text, mark) == seq![text],
    decreases text.len(),
{
    if text.len() > 0 {
        let before = text.drop_last();
        assert(!before.contains(mark)) by {
            if before.contains(mark) {
                let i = choose|i: int| 0 <= i < before.len() && before[i] == mark;
                assert(text[i] == mark);
            }
        }
        lemma_split_whole(before, mark);
        assert(text[text.len() - 1] == text.last());
        assert(before.push(text.last()) =~= text);
        assert(split(text, mark) =~= seq![text]);
    } else {
        assert(text =~= Seq::<char>::empty());
    }
}

/// A name that was made safe stays as it is when it is made safe again.
pub proof fn law_filename_is_stable(requested: Option<Seq<char>>, now_ms: nat, later_ms: nat)
    ensures
        png_name(Some(png_name(requested, now_ms)), later_ms) == png_name(requested, now_ms),
{
    reveal_strlit(".png");
    let name = png_name(requested, now_ms);
    law_filename_is_safe(requested, now_ms);
    lemma_split_whole(name, '/');
    let parts = seq![name];
    assert(lower_text(name).len() == name.len());
    assert(name.len() >= 4);
    assert(name != seq!['.']);
    assert(name != seq!['.', '.']);
    assert(parts.drop_last() =~= Seq::<Seq<char>>::empty());
    assert(members(parts.drop_last()) == Seq::<Seq<char>>::empty());
    assert(members(parts) =~= seq![name]);
    assert(file_name(name) == Some(name));
    assert(clean_name(name) =~= name) by {
        assert forall|i: int| 0 <= i < name.len() implies safe_char(#[trigger] name[i])
            == name[i] by {
            assert(is_safe(name[i]));
        }
    }
}

/// A completed download is fresh: the file is there, holds something, and was
/// not there before, or was another; and no download is under way.
pub proof fn law_download_is_fresh(now: Map<Seq<u8>, Stamp>, before: Map<Seq<u8>, Stamp>)
    ensures
        completed(now, before) matches Some(file) ==> !is_partial(now) && is_fresh(
            now,
            before,
            file.0,
        ) && file.1 == now[file.0].size,
{
}

proof fn lemma_files_finite(listing: Seq<ListedView>)
    ensures
        files_of(listing).dom().finite(),
    decreases listing.len(),
{
    if listing.len() > 0 {
        lemma_files_finite(listing.drop_last());
    }
}

proof fn lemma_last_of(names: Set<Seq<u8>>) -> (last: Seq<u8>)
    requires
        names.finite(),
        names.len() > 0,
    ensures
        names.contains(last),
        forall|other: Seq<u8>|
            names.contains(other) && other != last ==> #[trigger] precedes(other, last),
    decreases names.len(),
{
    let some = names.choose();
    let rest = names.remove(some);
    if rest.len() == 0 {
        assert forall|other: Seq<u8>| names.contains(other) && other != some implies #[trigger] precedes(
            other,
            some,
        ) by {
            assert(rest.contains(other));
        }
        some
    } else {
        let last = lemma_last_of(rest);
        lemma_precedes_total(some, last);
        if precedes(some, last) {
            assert forall|other: Seq<u8>| names.contains(other) && other
                != last implies #[trigger] precedes(other, last) by {
                if other != some {
                    assert(rest.contains(other));
                }
            }
            last
        } else {
            assert forall|other: Seq<u8>| names.contains(other) && other
                != some implies #[trigger] precedes(other, some) by {
                assert(rest.contains(other));
                if other != last {
                    lemma_precedes_chain(other, last, some);
                }
            }
            some
        }
    }
}

/// A fresh file is found: where a listing shows one and no download is under
/// way, a download is complete.
pub proof fn law_fresh_file_is_found(
    listing: Seq<ListedView>,
    before: Map<Seq<u8>, Stamp>,
    name: Seq<u8>,
)
    requires
        is_fresh(files_of(listing), before, name),
        !is_partial(files_of(listing)),
    ensures
        completed(files_of(listing), before) is Some,
{
    let now = files_of(listing);
    lemma_files_finite(listing);
    let fresh = now.dom().filter(|n: Seq<u8>| is_fresh(now, before, n));
    assert(fresh.contains(name));
    assert(fresh.finite()) by {
        now.dom().lemma_len_filter(|n: Seq<u8>| is_fresh(now, before, n));
    }
    let last = lemma_last_of(fresh);
    assert forall|other: Seq<u8>|
        is_fresh(now, before, other) && other != last implies #[trigger] precedes(other, last) by {
        assert(fresh.contains(other));
    }
    assert(is_last_fresh(now, before, last));
}

/// A screenshot that was asked for by a name bears it: the last member of the
/// path, character by character, with an underscore for each that may not
/// stand, and with `.png` behind it where it does not end so. One that was
/// asked for by none bears the time.
pub proof fn law_filename_follows_request(raw: Seq<char>, now_ms: nat, at: int)
    ensures
        png_name(None, now_ms) == "screenshot-"@ + decimal(now_ms) + ".png"@,
        file_name(raw) is None ==> png_name(Some(raw), now_ms) == png_name(None, now_ms),
        file_name(raw) matches Some(base) ==> (base.len() > 0 ==> {
            let name = png_name(Some(raw), now_ms);
            let own = name.take(base.len() as int);
            &&& name.len() >= base.len()
            &&& ends_with(lower_text(own), ".png"@) ==> name == own
            &&& !ends_with(lower_text(own), ".png"@) ==> name == own + ".png"@
            &&& 0 <= at < base.len() ==> name[at] == if ('a' <= base[at] <= 'z') || ('A' <= base[at]
                <= 'Z') || ('0' <= base[at] <= '9') || base[at] == '-' || base[at] == '_'
                || base[at] == '.' {
                base[at]
            } else {
                '_'
            }
        }),
{
    if let Some(base) = file_name(raw) {
        if base.len() > 0 {
            let name = png_name(Some(raw), now_ms);
            assert(name.take(base.len() as int) =~= clean_name(raw));
        }
    }
}

/// A file of a directory is known by its name with the stamp that was listed,
/// the last one of that name; nothing else is known.
pub proof fn law_files_are_those_listed(listing: Seq<ListedView>, at: int, name: Seq<u8>)
    ensures
        0 <= at < listing.len() && listing[at].is_file && listing[at].name == name && (forall|k: int|
            at < k < listing.len() ==> !((#[trigger] listing[k]).is_file && listing[k].name
                == name)) ==> files_of(listing).dom().contains(name) && files_of(listing)[name]
            == listing[at].stamp,
        (forall|k: int|
            0 <= k < listing.len() ==> !((#[trigger] listing[k]).is_file && listing[k].name == name))
            ==> !files_of(listing).dom().contains(name),
    decreases listing.len(),
{
    if listing.len() > 0 {
        let before = listing.drop_last();
        law_files_are_those_listed(before, at, name);
        assert(listing[listing.len() - 1] == listing.last());
        if 0 <= at < before.len() {
            assert(before[at] == listing[at]);
        }
        if 0 <= at && (forall|k: int|
            at < k < listing.len() ==> !((#[trigger] listing[k]).is_file && listing[k].name
                == name)) {
            assert forall|k: int| at < k < before.len() implies !((#[trigger] before[k]).is_file
                && before[k].name == name) by {
                assert(before[k] == listing[k]);
            }
        }
        if forall|k: int|
            0 <= k < listing.len() ==> !((#[trigger] listing[k]).is_file && listing[k].name
                == name) {
            assert forall|k: int| 0 <= k < before.len() implies !((#[trigger] before[k]).is_file
                && before[k].name == name) by {
                assert(before[k] == listing[k]);
            }
        }
    }
}

/// Names are in the order of their first different bytes, and a name stands
/// before what it begins.
pub proof fn law_order_of_names(lead: Seq<u8>, x: u8, y: u8, a: Seq<u8>, b: Seq<u8>)
    ensures
        x < y ==> precedes(lead + seq![x] + a, lead + seq![y] + b),
        precedes(lead, lead + seq![x] + a),
    decreases lead.len(),
{
    let one = lead + seq![x] + a;
    let two = lead + seq![y] + b;
    if lead.len() > 0 {
        let rest = lead.drop_first();
        law_order_of_names(rest, x, y, a, b);
        assert(one.drop_first() =~= rest + seq![x] + a);
        assert(two.drop_first() =~= rest + seq![y] + b);
    }
}

/// The download is a file that holds something, and that was not there before,
/// or was another; of several the last one by name. While a file of a download
/// under way is there, there is none.
pub proof fn law_last_fresh_file_counts(
    now: Map<Seq<u8>, Stamp>,
    before: Map<Seq<u8>, Stamp>,
    name: Seq<u8>,
)
    ensures
        completed(now, before) matches Some(file) ==> now.dom().contains(file.0) && file.1
            == now[file.0].size && file.1 > 0 && (before.dom().contains(file.0) ==> before[file.0]
            != now[file.0]),
        completed(now, before) matches Some(file) ==> (now.dom().contains(name) && now[name].size
            > 0 && (before.dom().contains(name) ==> before[name] != now[name]) && name != file.0
            ==> precedes(name, file.0)),
        now.dom().contains(name) && has_extension(name, vstd::utf8::encode_utf8("crdownload"@))
            ==> completed(now, before) is None,
{
    if completed(now, before) is Some && is_fresh(now, before, name) {
        let last = choose|last: Seq<u8>| is_last_fresh(now, before, last);
        assert(is_last_fresh(now, before, last));
    }
}

} // verus!
