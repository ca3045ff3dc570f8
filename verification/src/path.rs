//! Unix paths as the bytes that they are made of.
use crate::text::{chars_of, lemma_split_add, slice_of, split, split_at_mark};
use vstd::prelude::*;

verus! {

broadcast use vstd::string::group_string_axioms;

/// The text that `String::from_utf8_lossy` shows for some bytes.
pub uninterp spec fn lossy(bytes: Seq<u8>) -> Seq<char>;

/// `String::from_utf8_lossy`: bytes that are UTF-8 give the text that they
/// encode, in others each faulty run is replaced.
#[verifier::external_body]
fn from_utf8_lossy(bytes: &[u8]) -> (text: String)
    ensures
        text@ == lossy(bytes@),
        vstd::utf8::valid_utf8(bytes@) ==> text@ == vstd::utf8::decode_utf8(bytes@),
{
    String::from_utf8_lossy(bytes).into_owned()
}

/// The text that shows a path.
pub fn path_text(path: &Vec<u8>) -> (text: String)
    ensures
        text@ == lossy(path@),
        vstd::utf8::valid_utf8(path@) ==> text@ == vstd::utf8::decode_utf8(path@),
{
    from_utf8_lossy(path.as_slice())
}

/// The slash that parts the members of a path.
pub const SLASH: u8 = 47;

/// The relative path `tail` taken from the directory `base`.
pub open spec fn joined_path(base: Seq<u8>, tail: Seq<u8>) -> Seq<u8> {
    if base.len() == 0 || base.last() == SLASH {
        base + tail
    } else {
        base.push(SLASH) + tail
    }
}

/// The exec form of [`joined_path`].
pub fn join_path(base: &Vec<u8>, tail: &[u8]) -> (path: Vec<u8>)
    ensures
        path@ == joined_path(base@, tail@),
{
    let mut path: Vec<u8> = Vec::new();
    path.extend_from_slice(base.as_slice());
    assert(path@ =~= base@);
    if base.len() > 0 && base[base.len() - 1] != SLASH {
        path.push(SLASH);
    }
    let ghost start = path@;
    path.extend_from_slice(tail);
    assert(path@ =~= start + tail@);
    path
}

/// The members of a path that count: empty ones and single dots do not.
pub open spec fn members(parts: Seq<Seq<char>>) -> Seq<Seq<char>>
    decreases parts.len(),
{
    if parts.len() == 0 {
        Seq::empty()
    } else {
        let before = members(parts.drop_last());
        if parts.last().len() == 0 || parts.last() == seq!['.'] {
            before
        } else {
            before.push(parts.last())
        }
    }
}

/// The last member of the path `raw`, unless it leads upwards.
pub open spec fn file_name(raw: Seq<char>) -> Option<Seq<char>> {
    let all = members(split(raw, '/'));
    if all.len() == 0 || all.last() == seq!['.', '.'] {
        None
    } else {
        Some(all.last())
    }
}

/// The exec form of [`file_name`].
pub fn last_member(raw: &str) -> (name: Option<Vec<char>>)
    ensures
        (match name {
            Some(n) => Some(n@),
            None => None,
        }) == file_name(raw@),
{
    let parts = split_at_mark(&chars_of(raw), '/');
    let ghost views = parts@.map_values(|p: Vec<char>| p@);
    let mut i: usize = parts.len();
    assert(views.take(views.len() as int) =~= views);
    while i > 0
        invariant
            i <= parts@.len(),
            views == parts@.map_values(|p: Vec<char>| p@),
            views == split(raw@, '/'),
            members(views) == members(views.take(i as int)),
        decreases i,
    {
        let part = slice_of(&parts[i - 1], 0, parts[i - 1].len());
        assert(part@ =~= views[i - 1]);
        let ghost upto = views.take(i as int);
        assert(upto.drop_last() =~= views.take(i - 1));
        assert(upto.last() == part@);
        if part.len() == 0 || (part.len() == 1 && part[0] == '.') {
            assert(part@.len() == 1 ==> part@ =~= seq!['.']);
            i = i - 1;
        } else {
            assert(part@ != seq!['.']) by {
                assert(seq!['.'][0] == '.');
            }
            if part.len() == 2 && part[0] == '.' && part[1] == '.' {
                assert(part@ =~= seq!['.', '.']);
                return None;
            }
            assert(part@ != seq!['.', '.']) by {
                assert(seq!['.', '.'][0] == '.' && seq!['.', '.'][1] == '.');
            }
            return Some(part);
        }
    }
    None
}

/// Whether a file name has the extension `extension`: the part behind its
/// last dot, unless that dot comes first.
pub open spec fn has_extension(name: Seq<u8>, extension: Seq<u8>) -> bool {
    exists|dot: int|
        0 < dot < name.len() && name[dot] == 46 && (forall|k: int|
            dot < k < name.len() ==> #[trigger] name[k] != 46) && #[trigger] name.skip(dot + 1)
            == extension
}

/// The exec form of [`has_extension`].
pub fn extension_is(name: &Vec<u8>, extension: &[u8]) -> (b: bool)
    ensures
        b == has_extension(name@, extension@),
{
    let n = name.len();
    let mut dot: usize = n;
    while dot > 0 && name[dot - 1] != 46
        invariant
            dot <= n,
            n == name@.len(),
            forall|k: int| dot <= k < name@.len() ==> #[trigger] name@[k] != 46,
        decreases dot,
    {
        dot = dot - 1;
    }
    if dot <= 1 {
        return false;
    }
    let ghost at = dot - 1;
    assert(forall|d: int|
        0 < d < name@.len() && name@[d] == 46 && (forall|k: int|
            d < k < name@.len() ==> #[trigger] name@[k] != 46) ==> d == at);
    let ghost rest = name@.skip(at + 1);
    if n - dot != extension.len() {
        assert(rest.len() != extension@.len());
        return false;
    }
    let mut i: usize = 0;
    while i < extension.len()
        invariant
            i <= extension@.len(),
            n == name@.len(),
            n - dot == extension@.len(),
            1 < dot <= n,
            at == dot - 1,
            rest == name@.skip(at + 1),
            forall|d: int|
                0 < d < name@.len() && name@[d] == 46 && (forall|k: int|
                    d < k < name@.len() ==> #[trigger] name@[k] != 46) ==> d == at,
            forall|k: int| 0 <= k < i ==> rest[k] == extension@[k],
        decreases extension@.len() - i,
    {
        assert(rest[i as int] == name@[dot + i]);
        if name[dot + i] != extension[i] {
            assert(rest != extension@);
            return false;
        }
        i = i + 1;
    }
    assert(rest =~= extension@);
    assert(name@[at] == 46);
    true
}

/// A joined path begins with its base and ends with its tail, with a slash
/// between them where the base has none at its end, and nothing more.
pub proof fn law_joined_path(base: Seq<u8>, tail: Seq<u8>)
    ensures
        ({
            let path = joined_path(base, tail);
            let gap: int = if base.len() == 0 || base.last() == 47 {
                0
            } else {
                1
            };
            &&& path.len() == base.len() + gap + tail.len()
            &&& path.take(base.len() as int) == base
            &&& path.skip(base.len() + gap) == tail
            &&& gap == 1 ==> path[base.len() as int] == 47
        }),
{
    let path = joined_path(base, tail);
    let gap: int = if base.len() == 0 || base.last() == 47 {
        0
    } else {
        1
    };
    assert(path.take(base.len() as int) =~= base);
    assert(path.skip(base.len() + gap) =~= tail);
}

/// The name of a file is what stands behind the last slash, whatever the
/// directory; a slash at the end, or a dot behind one, changes nothing, and two
/// dots are no name.
pub proof fn law_file_name(directory: Seq<char>, name: Seq<char>, raw: Seq<char>)
    requires
        name.len() > 0,
        !name.contains('/'),
        name != seq!['.'],
        name != seq!['.', '.'],
    ensures
        file_name(directory.push('/') + name) == Some(name),
        file_name(name) == Some(name),
        file_name(raw.push('/')) == file_name(raw),
        file_name(raw.push('/') + seq!['.']) == file_name(raw),
        file_name(directory.push('/') + seq!['.', '.']) is None,
{
    lemma_last_part(directory, name);
    let empty = Seq::<char>::empty();
    lemma_split_add(empty, name, '/');
    assert(empty + name =~= name);
    assert(split(empty, '/').drop_last() =~= Seq::<Seq<char>>::empty());
    let alone = split(name, '/');
    assert(alone =~= seq![name]);
    assert(alone.drop_last() =~= Seq::<Seq<char>>::empty());
    assert(members(alone.drop_last()) =~= Seq::<Seq<char>>::empty());
    assert(members(alone) =~= seq![name]);
    let slashed = raw.push('/');
    assert(slashed.drop_last() =~= raw);
    let parts = split(slashed, '/');
    assert(parts.drop_last() =~= split(raw, '/'));
    assert(members(parts) =~= members(split(raw, '/')));
    let here = seq!['.'];
    assert(!here.contains('/'));
    lemma_split_add(slashed, here, '/');
    let dotted = split(slashed + here, '/');
    assert(parts.last() + here =~= here);
    assert(dotted.last() == here);
    assert(dotted.drop_last() =~= split(raw, '/'));
    let up = seq!['.', '.'];
    assert(!up.contains('/'));
    lemma_last_part(directory, up);
}

/// The last member of a path with a name behind a slash.
proof fn lemma_last_part(directory: Seq<char>, name: Seq<char>)
    requires
        name.len() > 0,
        !name.contains('/'),
        name != seq!['.'],
    ensures
        members(split(directory.push('/') + name, '/')).len() > 0,
        members(split(directory.push('/') + name, '/')).last() == name,
{
    let slashed = directory.push('/');
    assert(slashed.drop_last() =~= directory);
    let before = split(slashed, '/');
    assert(before.last() =~= Seq::<char>::empty());
    lemma_split_add(slashed, name, '/');
    let parts = split(slashed + name, '/');
    assert(before.last() + name =~= name);
    assert(parts.last() == name);
}

/// An extension is what stands behind the last dot of a name, where something
/// stands before it; a name has at most one.
pub proof fn law_extension(stem: Seq<u8>, extension: Seq<u8>, name: Seq<u8>, other: Seq<u8>)
    ensures
        stem.len() > 0 && !extension.contains(46) ==> has_extension(
            stem.push(46) + extension,
            extension,
        ),
        has_extension(name, extension) && has_extension(name, other) ==> extension == other,
        (forall|k: int| 0 < k < name.len() ==> #[trigger] name[k] != 46) ==> !has_extension(
            name,
            extension,
        ),
{
    let whole = stem.push(46) + extension;
    if stem.len() > 0 && !extension.contains(46) {
        let dot = stem.len() as int;
        assert(whole[dot] == 46);
        assert forall|k: int| dot < k < whole.len() implies #[trigger] whole[k] != 46 by {
            assert(whole[k] == extension[k - dot - 1]);
            assert(extension.contains(extension[k - dot - 1]));
        }
        assert(whole.skip(dot + 1) =~= extension);
        assert(has_extension(whole, extension));
    }
    if has_extension(name, extension) && has_extension(name, other) {
        let a = choose|dot: int|
            0 < dot < name.len() && name[dot] == 46 && (forall|k: int|
                dot < k < name.len() ==> #[trigger] name[k] != 46) && #[trigger] name.skip(dot + 1)
                == extension;
        let b = choose|dot: int|
            0 < dot < name.len() && name[dot] == 46 && (forall|k: int|
                dot < k < name.len() ==> #[trigger] name[k] != 46) && #[trigger] name.skip(dot + 1)
                == other;
        assert(name[a] == 46 && name[b] == 46);
        assert(a == b);
    }
}

} // verus!
