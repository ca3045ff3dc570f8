//! Text as sequences of characters: the small string operations that the
//! rest of the library is written with, each proved against a direct
//! statement of what it computes.
use vstd::prelude::*;

verus! {

broadcast use vstd::string::group_string_axioms;

/// `String::push` appends one character.
pub assume_specification[ String::push ](text: &mut String, c: char)
    ensures
        final(text)@ == old(text)@.push(c),
;

/// The views of a list of strings.
pub open spec fn texts(list: Seq<String>) -> Seq<Seq<char>> {
    list.map_values(|s: String| s@)
}

/// The view of an optional string.
pub open spec fn optional_text(text: Option<String>) -> Option<Seq<char>> {
    match text {
        Some(s) => Some(s@),
        None => None,
    }
}

/// The view of an optional string slice.
pub open spec fn optional_str(text: Option<&str>) -> Option<Seq<char>> {
    match text {
        Some(s) => Some(s@),
        None => None,
    }
}

/// The text of an optional one, lent.
pub fn borrowed(text: &Option<String>) -> (lent: Option<&str>)
    ensures
        optional_str(lent) == optional_text(*text),
{
    match text {
        Some(s) => Some(s.as_str()),
        None => None,
    }
}

/// The characters of `text`, in order.
pub fn chars_of(text: &str) -> (chars: Vec<char>)
    ensures
        chars@ == text@,
{
    let mut chars: Vec<char> = Vec::new();
    let n = text.unicode_len();
    let mut it = text.chars();
    let mut i: usize = 0;
    while i < n
        invariant
            n == text@.len(),
            i <= n,
            chars@ == text@.take(i as int),
            vstd::std_specs::iter::IteratorSpec::remaining(&it) == text@.skip(i as int),
            vstd::std_specs::iter::IteratorSpec::obeys_prophetic_iter_laws(&it),
        decreases n - i,
    {
        let next = it.next();
        if let Some(c) = next {
            chars.push(c);
        }
        assert(text@.take(i as int).push(text@[i as int]) =~= text@.take(i + 1));
        assert(text@.skip(i as int).drop_first() =~= text@.skip(i + 1));
        i = i + 1;
    }
    assert(text@.take(n as int) =~= text@);
    chars
}

/// The string made of `chars`.
pub fn string_of(chars: &Vec<char>) -> (text: String)
    ensures
        text@ == chars@,
{
    let mut text = String::new();
    let mut i: usize = 0;
    while i < chars.len()
        invariant
            i <= chars@.len(),
            text@ == chars@.take(i as int),
        decreases chars@.len() - i,
    {
        text.push(chars[i]);
        assert(chars@.take(i as int).push(chars@[i as int]) =~= chars@.take(i + 1));
        i = i + 1;
    }
    assert(chars@.take(i as int) =~= chars@);
    text
}

/// Whether the two texts hold the same characters.
pub fn same_text(a: &str, b: &str) -> (same: bool)
    ensures
        same == (a@ == b@),
{
    a.to_owned() == b.to_owned()
}

/// The characters of `chars` from `from` up to, not including, `to`.
pub fn slice_of(chars: &Vec<char>, from: usize, to: usize) -> (part: Vec<char>)
    requires
        from <= to <= chars@.len(),
    ensures
        part@ == chars@.subrange(from as int, to as int),
{
    let mut part: Vec<char> = Vec::new();
    let mut i: usize = from;
    while i < to
        invariant
            from <= i <= to <= chars@.len(),
            part@ == chars@.subrange(from as int, i as int),
        decreases to - i,
    {
        part.push(chars[i]);
        assert(chars@.subrange(from as int, i as int).push(chars@[i as int]) =~= chars@.subrange(
            from as int,
            i + 1,
        ));
        i = i + 1;
    }
    part
}

/// A letter between `A` and `Z` in lower case, any other character as it is.
pub open spec fn ascii_lower(c: char) -> char {
    if 'A' <= c <= 'Z' {
        (c as u8 + 32) as char
    } else {
        c
    }
}

/// `text` with its ASCII letters in lower case.
pub open spec fn lower_text(text: Seq<char>) -> Seq<char> {
    text.map_values(|c: char| ascii_lower(c))
}

/// The exec form of [`ascii_lower`].
pub fn lower_char(c: char) -> (lower: char)
    ensures
        lower == ascii_lower(c),
{
    if 'A' as u32 <= c as u32 && c as u32 <= 'Z' as u32 {
        (c as u8 + 32) as char
    } else {
        c
    }
}

/// The exec form of [`lower_text`].
pub fn lowered(text: &str) -> (lower: String)
    ensures
        lower@ == lower_text(text@),
{
    let chars = chars_of(text);
    let mut lower = String::new();
    let mut i: usize = 0;
    while i < chars.len()
        invariant
            i <= chars@.len(),
            chars@ == text@,
            lower@ == lower_text(text@.take(i as int)),
        decreases chars@.len() - i,
    {
        lower.push(lower_char(chars[i]));
        assert(lower@ =~= lower_text(text@.take(i + 1)));
        i = i + 1;
    }
    assert(text@.take(i as int) =~= text@);
    lower
}

/// Whether `c` has the Unicode property White_Space.
pub open spec fn is_white(c: char) -> bool {
    let u = c as u32;
    ||| 0x09 <= u <= 0x0d
    ||| u == 0x20
    ||| u == 0x85
    ||| u == 0xa0
    ||| u == 0x1680
    ||| 0x2000 <= u <= 0x200a
    ||| u == 0x2028
    ||| u == 0x2029
    ||| u == 0x202f
    ||| u == 0x205f
    ||| u == 0x3000
}

/// The exec form of [`is_white`].
pub fn white(c: char) -> (b: bool)
    ensures
        b == is_white(c),
{
    let u = c as u32;
    (0x09 <= u && u <= 0x0d) || u == 0x20 || u == 0x85 || u == 0xa0 || u == 0x1680 || (0x2000 <= u
        && u <= 0x200a) || u == 0x2028 || u == 0x2029 || u == 0x202f || u == 0x205f || u == 0x3000
}

/// `text` without the white space at its start.
pub open spec fn trim_start(text: Seq<char>) -> Seq<char>
    decreases text.len(),
{
    if text.len() > 0 && is_white(text[0]) {
        trim_start(text.drop_first())
    } else {
        text
    }
}

/// `text` without the white space at its end.
pub open spec fn trim_end(text: Seq<char>) -> Seq<char>
    decreases text.len(),
{
    if text.len() > 0 && is_white(text.last()) {
        trim_end(text.drop_last())
    } else {
        text
    }
}

/// `text` without the white space at either end.
pub open spec fn trim(text: Seq<char>) -> Seq<char> {
    trim_end(trim_start(text))
}

/// `text` without the dots at its start.
pub open spec fn strip_dots(text: Seq<char>) -> Seq<char>
    decreases text.len(),
{
    if text.len() > 0 && text[0] == '.' {
        strip_dots(text.drop_first())
    } else {
        text
    }
}

/// The exec form of [`trim`].
pub fn trimmed(chars: &Vec<char>) -> (part: Vec<char>)
    ensures
        part@ == trim(chars@),
{
    let mut from: usize = 0;
    assert(chars@.skip(0) =~= chars@);
    while from < chars.len() && white(chars[from])
        invariant
            from <= chars@.len(),
            trim_start(chars@) == trim_start(chars@.skip(from as int)),
        decreases chars@.len() - from,
    {
        assert(chars@.skip(from as int).drop_first() =~= chars@.skip(from + 1));
        from = from + 1;
    }
    assert(trim_start(chars@) == chars@.skip(from as int));
    let mut to: usize = chars.len();
    assert(chars@.subrange(from as int, to as int) =~= chars@.skip(from as int));
    while from < to && white(chars[to - 1])
        invariant
            from <= to <= chars@.len(),
            trim(chars@) == trim_end(chars@.subrange(from as int, to as int)),
        decreases to,
    {
        assert(chars@.subrange(from as int, to as int).drop_last() =~= chars@.subrange(
            from as int,
            to - 1,
        ));
        to = to - 1;
    }
    slice_of(chars, from, to)
}

/// The exec form of [`strip_dots`].
pub fn without_leading_dots(chars: &Vec<char>) -> (part: Vec<char>)
    ensures
        part@ == strip_dots(chars@),
{
    let mut from: usize = 0;
    assert(chars@.skip(0) =~= chars@);
    while from < chars.len() && chars[from] == '.'
        invariant
            from <= chars@.len(),
            strip_dots(chars@) == strip_dots(chars@.skip(from as int)),
        decreases chars@.len() - from,
    {
        assert(chars@.skip(from as int).drop_first() =~= chars@.skip(from + 1));
        from = from + 1;
    }
    let part = slice_of(chars, from, chars.len());
    assert(part@ =~= chars@.skip(from as int));
    part
}

/// The decimal digit `d`.
pub open spec fn digit(d: nat) -> char {
    (48 + d) as u8 as char
}

/// `n` in decimal, without leading zeros.
pub open spec fn decimal(n: nat) -> Seq<char>
    decreases n,
{
    if n < 10 {
        seq![digit(n)]
    } else {
        decimal(n / 10).push(digit(n % 10))
    }
}

/// The exec form of [`decimal`].
pub fn decimal_text(n: u128) -> (text: String)
    ensures
        text@ == decimal(n as nat),
    decreases n,
{
    if n < 10 {
        let mut text = String::new();
        text.push((48 + n as u8) as char);
        assert(text@ =~= decimal(n as nat));
        text
    } else {
        let mut text = decimal_text(n / 10);
        text.push((48 + (n % 10) as u8) as char);
        text
    }
}

/// Whether `c` is a decimal digit.
pub open spec fn is_digit(c: char) -> bool {
    '0' <= c <= '9'
}

/// The number that a run of decimal digits stands for.
pub open spec fn number(digits: Seq<char>) -> nat
    decreases digits.len(),
{
    if digits.len() == 0 {
        0
    } else {
        number(digits.drop_last()) * 10 + (digits.last() as nat - 48) as nat
    }
}

/// The unsigned 64-bit number that a non-empty run of digits stands for.
pub open spec fn digits_value(digits: Seq<char>) -> Option<u64> {
    if digits.len() > 0 && (forall|i: int| 0 <= i < digits.len() ==> is_digit(#[trigger] digits[i]))
        && number(digits) <= u64::MAX {
        Some(number(digits) as u64)
    } else {
        None
    }
}

/// The unsigned 64-bit number that `text` writes in decimal: one or more
/// digits, after an optional plus sign.
pub open spec fn unsigned(text: Seq<char>) -> Option<u64> {
    if text.len() > 0 && text[0] == '+' {
        digits_value(text.drop_first())
    } else {
        digits_value(text)
    }
}

proof fn lemma_number_grows(digits: Seq<char>, n: int)
    requires
        0 <= n <= digits.len(),
        forall|i: int| 0 <= i < digits.len() ==> is_digit(#[trigger] digits[i]),
    ensures
        number(digits.take(n)) <= number(digits),
    decreases digits.len() - n,
{
    if n < digits.len() {
        assert(digits.take(n + 1).drop_last() =~= digits.take(n));
        assert(number(digits.take(n + 1)) >= number(digits.take(n)));
        lemma_number_grows(digits, n + 1);
    } else {
        assert(digits.take(n) =~= digits);
    }
}

/// The value of the decimal digit `c`, if it is one.
fn digit_of(c: char) -> (d: Option<u64>)
    ensures
        d == (if is_digit(c) {
            Some((c as nat - 48) as u64)
        } else {
            None
        }),
        d matches Some(v) ==> v <= 9 && v == c as nat - 48,
{
    let u = c as u32;
    if 48 <= u && u <= 57 {
        Some((u - 48) as u64)
    } else {
        None
    }
}

/// The exec form of [`unsigned`].
pub fn parse_unsigned(text: &str) -> (n: Option<u64>)
    ensures
        n == unsigned(text@),
{
    let chars = chars_of(text);
    let start: usize = if chars.len() > 0 && chars[0] == '+' {
        1
    } else {
        0
    };
    let ghost digits = text@.skip(start as int);
    assert(start == 0 ==> digits =~= text@);
    assert(start == 1 ==> digits =~= text@.drop_first());
    if start == chars.len() {
        return None;
    }
    let mut n: u64 = 0;
    let mut i: usize = start;
    while i < chars.len()
        invariant
            start <= i <= chars@.len(),
            chars@ == text@,
            digits == text@.skip(start as int),
            digits.len() > 0,
            unsigned(text@) == digits_value(digits),
            n == number(digits.take(i - start)),
            forall|k: int| 0 <= k < i - start ==> is_digit(#[trigger] digits[k]),
        decreases chars@.len() - i,
    {
        let ghost at = i - start;
        assert(digits[at] == chars@[i as int]);
        let d: u64 = match digit_of(chars[i]) {
            Some(d) => d,
            None => {
                assert(!is_digit(digits[at]));
                return None;
            },
        };
        assert(digits.take(at + 1).drop_last() =~= digits.take(at));
        assert(number(digits.take(at + 1)) == n * 10 + d);
        if n > (u64::MAX - d) / 10 {
            proof {
                if forall|k: int| 0 <= k < digits.len() ==> is_digit(#[trigger] digits[k]) {
                    lemma_number_grows(digits, at + 1);
                }
            }
            return None;
        }
        n = n * 10 + d;
        i = i + 1;
    }
    assert(digits.take(i - start) =~= digits);
    Some(n)
}

/// The decimal form of a number is made of digits, and they give it back.
pub proof fn lemma_decimal(n: nat)
    ensures
        decimal(n).len() > 0,
        forall|i: int| 0 <= i < decimal(n).len() ==> is_digit(#[trigger] decimal(n)[i]),
        number(decimal(n)) == n,
        decimal(n)[0] != '+',
    decreases n,
{
    let last = digit(n % 10);
    assert(last as nat == 48 + n % 10) by {
        let d = (48 + n % 10) as u8;
        assert(d == 48 + n % 10);
    }
    if n < 10 {
        assert(decimal(n) =~= seq![digit(n)]);
        assert(decimal(n).drop_last() =~= Seq::<char>::empty());
        assert(number(Seq::<char>::empty()) == 0);
    } else {
        lemma_decimal(n / 10);
        assert(decimal(n).drop_last() =~= decimal(n / 10));
        assert(decimal(n).last() == last);
        assert forall|i: int| 0 <= i < decimal(n).len() implies is_digit(
            #[trigger] decimal(n)[i],
        ) by {
            if i < decimal(n / 10).len() {
                assert(decimal(n)[i] == decimal(n / 10)[i]);
            }
        }
        assert(decimal(n)[0] == decimal(n / 10)[0]);
    }
}

/// `true` or `false`.
pub open spec fn bool_word(b: bool) -> Seq<char> {
    if b {
        "true"@
    } else {
        "false"@
    }
}

/// The exec form of [`bool_word`].
pub fn bool_text(b: bool) -> (text: &'static str)
    ensures
        text@ == bool_word(b),
{
    if b {
        "true"
    } else {
        "false"
    }
}

/// Whether `text` ends with `suffix`.
pub open spec fn ends_with<T>(text: Seq<T>, suffix: Seq<T>) -> bool {
    text.len() >= suffix.len() && text.skip(text.len() - suffix.len()) == suffix
}

/// The exec form of [`ends_with`] on characters.
pub fn has_suffix(text: &Vec<char>, suffix: &Vec<char>) -> (b: bool)
    ensures
        b == ends_with(text@, suffix@),
{
    if text.len() < suffix.len() {
        return false;
    }
    let n = text.len();
    let start = n - suffix.len();
    let mut i: usize = 0;
    while i < suffix.len()
        invariant
            i <= suffix@.len() <= n,
            n == text@.len(),
            start == text@.len() - suffix@.len(),
            forall|k: int| 0 <= k < i ==> text@[start + k] == suffix@[k],
        decreases suffix@.len() - i,
    {
        if text[start + i] != suffix[i] {
            assert(text@.skip(start as int)[i as int] != suffix@[i as int]);
            return false;
        }
        i = i + 1;
    }
    assert(text@.skip(start as int) =~= suffix@);
    true
}

/// Whether `part` occurs in `text`.
pub open spec fn contains_text(text: Seq<char>, part: Seq<char>) -> bool {
    exists|at: int|
        0 <= at <= text.len() - part.len() && #[trigger] text.subrange(at, at + part.len()) == part
}

/// The exec form of [`contains_text`].
pub fn has_part(text: &Vec<char>, part: &Vec<char>) -> (b: bool)
    ensures
        b == contains_text(text@, part@),
{
    if text.len() < part.len() {
        return false;
    }
    let n = text.len();
    let last = n - part.len();
    let mut at: usize = 0;
    loop
        invariant
            n == text@.len(),
            last == text@.len() - part@.len(),
            at <= last,
            forall|k: int|
                0 <= k < at ==> #[trigger] text@.subrange(k, k + part@.len()) != part@,
        decreases last - at,
    {
        let candidate = slice_of(text, at, at + part.len());
        if string_of(&candidate) == string_of(part) {
            return true;
        }
        if at == last {
            return false;
        }
        at = at + 1;
    }
}

/// The parts of `text` between the occurrences of `mark`, empty ones included.
pub open spec fn split(text: Seq<char>, mark: char) -> Seq<Seq<char>>
    decreases text.len(),
{
    if text.len() == 0 {
        seq![Seq::<char>::empty()]
    } else {
        let before = split(text.drop_last(), mark);
        if text.last() == mark {
            before.push(Seq::<char>::empty())
        } else {
            before.drop_last().push(before.last().push(text.last()))
        }
    }
}

/// The exec form of [`split`].
pub fn split_at_mark(chars: &Vec<char>, mark: char) -> (parts: Vec<Vec<char>>)
    ensures
        parts@.map_values(|p: Vec<char>| p@) == split(chars@, mark),
        parts@.len() > 0,
{
    let mut done: Vec<Vec<char>> = Vec::new();
    let mut current: Vec<char> = Vec::new();
    let mut i: usize = 0;
    assert(done@.map_values(|p: Vec<char>| p@).push(current@) =~= split(chars@.take(0), mark));
    while i < chars.len()
        invariant
            i <= chars@.len(),
            done@.map_values(|p: Vec<char>| p@).push(current@) == split(
                chars@.take(i as int),
                mark,
            ),
        decreases chars@.len() - i,
    {
        let c = chars[i];
        let ghost before = done@.map_values(|p: Vec<char>| p@).push(current@);
        let ghost views = done@.map_values(|p: Vec<char>| p@);
        assert(chars@.take(i + 1).drop_last() =~= chars@.take(i as int));
        assert(before.drop_last() =~= views);
        if c == mark {
            done.push(current);
            current = Vec::new();
            assert(done@.map_values(|p: Vec<char>| p@) =~= before);
            assert(current@ =~= Seq::<char>::empty());
        } else {
            current.push(c);
        }
        i = i + 1;
    }
    assert(chars@.take(i as int) =~= chars@);
    let ghost views = done@.map_values(|p: Vec<char>| p@);
    let ghost end = current@;
    done.push(current);
    assert(done@.map_values(|p: Vec<char>| p@) =~= views.push(end));
    done
}

/// `line` without one carriage return at its end.
pub open spec fn strip_return(line: Seq<char>) -> Seq<char> {
    if line.len() > 0 && line.last() == '\r' {
        line.drop_last()
    } else {
        line
    }
}

/// The lines of `content`. A line ends with a line feed, or a carriage return
/// and a line feed; the last one may go without.
pub open spec fn lines(content: Seq<char>) -> Seq<Seq<char>> {
    let parts = split(content, '\n');
    let ended = parts.drop_last().map_values(|p: Seq<char>| strip_return(p));
    if parts.last().len() == 0 {
        ended
    } else {
        ended.push(parts.last())
    }
}

/// `list` with `mark` between its members.
pub open spec fn join(list: Seq<Seq<char>>, mark: Seq<char>) -> Seq<char>
    decreases list.len(),
{
    if list.len() == 0 {
        Seq::<char>::empty()
    } else if list.len() == 1 {
        list[0]
    } else {
        join(list.drop_last(), mark) + mark + list.last()
    }
}

/// The exec form of [`join`] on the first `count` members.
pub fn joined(list: &Vec<String>, count: usize, mark: &str) -> (text: String)
    requires
        count <= list@.len(),
    ensures
        text@ == join(texts(list@).take(count as int), mark@),
{
    let mut text = String::new();
    let mut i: usize = 0;
    while i < count
        invariant
            i <= count <= list@.len(),
            text@ == join(texts(list@).take(i as int), mark@),
        decreases count - i,
    {
        let ghost upto = texts(list@).take(i + 1);
        assert(upto.drop_last() =~= texts(list@).take(i as int));
        if i > 0 {
            text.append(mark);
        }
        text.append(list[i].as_str());
        assert(upto.last() == list@[i as int]@);
        assert(i == 0 ==> text@ =~= upto[0]);
        i = i + 1;
    }
    text
}

/// What a text contains, it contains with more behind it.
pub broadcast proof fn lemma_contains_before(text: Seq<char>, more: Seq<char>, part: Seq<char>)
    requires
        contains_text(text, part),
    ensures
        #[trigger] contains_text(text + more, part),
{
    let at = choose|at: int|
        0 <= at <= text.len() - part.len() && #[trigger] text.subrange(at, at + part.len()) == part;
    assert((text + more).subrange(at, at + part.len()) =~= text.subrange(at, at + part.len()));
}

/// A text contains what stands at its end.
pub broadcast proof fn lemma_contains_last(text: Seq<char>, label: Seq<char>, value: Seq<char>)
    ensures
        #[trigger] contains_text(text + label + value, label + value),
{
    let whole = text + label + value;
    let part = label + value;
    let at = text.len() as int;
    assert(whole.subrange(at, at + part.len()) =~= part);
}

/// A text contains what it begins with.
pub broadcast proof fn lemma_contains_first(label: Seq<char>, value: Seq<char>)
    ensures
        #[trigger] contains_text(label + value, label + value),
{
    let part = label + value;
    let at: int = 0;
    assert(part.subrange(at, at + part.len()) =~= part);
}

/// A text contains what it ends with.
pub broadcast proof fn lemma_contains_end(text: Seq<char>, value: Seq<char>)
    ensures
        #[trigger] contains_text(text + value, value),
{
    let whole = text + value;
    let at = text.len() as int;
    assert(whole.subrange(at, at + value.len()) =~= value);
}

/// The facts on what texts contain.
pub broadcast group group_contains {
    lemma_contains_end,
    lemma_contains_before,
    lemma_contains_last,
    lemma_contains_first,
}

/// Whether all of a text is white space.
pub open spec fn is_blank(text: Seq<char>) -> bool {
    forall|i: int| 0 <= i < text.len() ==> is_white(#[trigger] text[i])
}

proof fn lemma_trim_start(text: Seq<char>) -> (before: Seq<char>)
    ensures
        is_blank(before),
        text == before + trim_start(text),
        trim_start(text).len() > 0 ==> !is_white(trim_start(text)[0]),
    decreases text.len(),
{
    if text.len() > 0 && is_white(text[0]) {
        let rest = lemma_trim_start(text.drop_first());
        let before = seq![text[0]] + rest;
        let kept = trim_start(text);
        assert(text =~= seq![text[0]] + text.drop_first());
        assert(before + kept =~= seq![text[0]] + (rest + kept));
        before
    } else {
        assert(text =~= Seq::<char>::empty() + text);
        Seq::empty()
    }
}

proof fn lemma_trim_end(text: Seq<char>) -> (behind: Seq<char>)
    ensures
        is_blank(behind),
        text == trim_end(text) + behind,
        trim_end(text).len() > 0 ==> !is_white(trim_end(text).last()) && trim_end(text)[0]
            == text[0],
    decreases text.len(),
{
    if text.len() > 0 && is_white(text.last()) {
        let rest = lemma_trim_end(text.drop_last());
        let behind = rest.push(text.last());
        let kept = trim_end(text);
        assert(text =~= text.drop_last().push(text.last()));
        assert(kept + behind =~= (kept + rest).push(text.last()));
        behind
    } else {
        assert(text =~= text + Seq::<char>::empty());
        Seq::empty()
    }
}

/// Trimming takes away white space at the two ends, all of it and nothing else.
pub proof fn law_trim(text: Seq<char>)
    ensures
        exists|before: Seq<char>, behind: Seq<char>|
            is_blank(before) && is_blank(behind) && text == #[trigger] (before + trim(text)
                + behind),
        trim(text).len() > 0 ==> !is_white(trim(text)[0]) && !is_white(trim(text).last()),
{
    let before = lemma_trim_start(text);
    let behind = lemma_trim_end(trim_start(text));
    assert(text =~= before + trim(text) + behind);
}

/// Letters are put into lower case one by one: the capital letters of ASCII
/// become the small ones, and no other character changes.
pub proof fn law_lower(text: Seq<char>, at: int)
    requires
        0 <= at < text.len(),
    ensures
        lower_text(text).len() == text.len(),
        'A' <= text[at] <= 'Z' ==> lower_text(text)[at] as int == text[at] as int + 32,
        !('A' <= text[at] <= 'Z') ==> lower_text(text)[at] == text[at],
{
    let c = text[at];
    if 'A' <= c <= 'Z' {
        let u = c as u8;
        assert(u == c as int);
        let v = (u + 32) as u8;
        assert(v == u + 32);
        assert(ascii_lower(c) == v as char);
        assert((v as char) as int == v as int);
    }
}

/// Dots at the start of a text are stripped, all of them and nothing else.
pub proof fn law_strip_dots(text: Seq<char>)
    ensures
        strip_dots(text).len() <= text.len(),
        text.skip(text.len() - strip_dots(text).len()) == strip_dots(text),
        forall|i: int|
            0 <= i < text.len() - strip_dots(text).len() ==> #[trigger] text[i] == '.',
        strip_dots(text).len() > 0 ==> strip_dots(text)[0] != '.',
    decreases text.len(),
{
    if text.len() > 0 && text[0] == '.' {
        let rest = text.drop_first();
        law_strip_dots(rest);
        let n = strip_dots(text).len();
        assert(text.skip(text.len() - n) =~= rest.skip(rest.len() - n));
        assert forall|i: int| 0 <= i < text.len() - n implies #[trigger] text[i] == '.' by {
            if i > 0 {
                assert(rest[i - 1] == text[i]);
            }
        }
    } else {
        assert(text.skip(0) =~= text);
    }
}

proof fn lemma_join_last(before: Seq<Seq<char>>, last: Seq<char>, more: Seq<char>, mark: Seq<char>)
    ensures
        join(before.push(last + more), mark) == join(before.push(last), mark) + more,
{
    let one = before.push(last);
    let two = before.push(last + more);
    assert(one.drop_last() =~= before);
    assert(two.drop_last() =~= before);
    assert(join(two, mark) =~= join(one, mark) + more);
}

/// A text that is split at a mark has no mark in its parts, and the parts with
/// the mark between them are the text.
pub proof fn law_split(text: Seq<char>, mark: char)
    ensures
        split(text, mark).len() > 0,
        join(split(text, mark), seq![mark]) == text,
        forall|i: int|
            0 <= i < split(text, mark).len() ==> !(#[trigger] split(text, mark)[i]).contains(mark),
    decreases text.len(),
{
    let parts = split(text, mark);
    if text.len() == 0 {
        assert(join(parts, seq![mark]) =~= text);
    } else {
        let c = text.last();
        let rest = text.drop_last();
        let before = split(rest, mark);
        law_split(rest, mark);
        assert(text =~= rest.push(c));
        if c == mark {
            assert(parts.drop_last() =~= before);
            assert(join(parts, seq![mark]) =~= rest + seq![mark] + Seq::<char>::empty());
            assert(join(parts, seq![mark]) =~= text);
        } else {
            let lead = before.drop_last();
            let last = before.last();
            assert(before =~= lead.push(last));
            assert(last.push(c) =~= last + seq![c]);
            lemma_join_last(lead, last, seq![c], seq![mark]);
            assert(join(parts, seq![mark]) =~= text);
            assert forall|i: int| 0 <= i < parts.len() implies !(#[trigger] parts[i]).contains(
                mark,
            ) by {
                if i < lead.len() {
                    assert(parts[i] == before[i]);
                } else {
                    assert(parts[i] == last.push(c));
                    assert(!before[before.len() - 1].contains(mark));
                    assert forall|k: int| 0 <= k < parts[i].len() implies parts[i][k] != mark by {
                        if k < last.len() {
                            assert(last[k] == parts[i][k]);
                            assert(last.contains(last[k]));
                        }
                    }
                }
            }
        }
    }
}

/// What is added to a text without the mark is added to its last part.
pub proof fn lemma_split_add(text: Seq<char>, more: Seq<char>, mark: char)
    requires
        !more.contains(mark),
    ensures
        split(text, mark).len() > 0,
        split(text + more, mark) == split(text, mark).drop_last().push(
            split(text, mark).last() + more,
        ),
    decreases more.len(),
{
    let parts = split(text, mark);
    law_split(text, mark);
    if more.len() == 0 {
        assert(text + more =~= text);
        assert(parts.last() + more =~= parts.last());
        assert(parts.drop_last().push(parts.last()) =~= parts);
    } else {
        let c = more.last();
        let rest = more.drop_last();
        assert(more[more.len() - 1] == c);
        assert(more.contains(c));
        assert(!rest.contains(mark)) by {
            if rest.contains(mark) {
                let k = choose|k: int| 0 <= k < rest.len() && rest[k] == mark;
                assert(more[k] == mark);
            }
        }
        lemma_split_add(text, rest, mark);
        let whole = text + more;
        assert(whole.drop_last() =~= text + rest);
        assert(whole.last() == c);
        let before = split(text + rest, mark);
        assert(before.drop_last() =~= parts.drop_last());
        assert((parts.last() + rest).push(c) =~= parts.last() + more);
    }
}

/// A line that is added to whole lines is one more line, without what ends it;
/// one that is not ended is a line as it stands.
pub proof fn law_line_is_added(content: Seq<char>, line: Seq<char>)
    requires
        content.len() > 0 ==> content.last() == '\n',
        !line.contains('\n'),
    ensures
        lines((content + line).push('\n')) == lines(content).push(
            if line.len() > 0 && line.last() == '\r' {
                line.drop_last()
            } else {
                line
            },
        ),
        line.len() > 0 ==> lines(content + line) == lines(content).push(line),
{
    let parts = split(content, '\n');
    lemma_split_add(content, line, '\n');
    assert(parts.last() =~= Seq::<char>::empty());
    assert(parts.last() + line =~= line);
    let open = split(content + line, '\n');
    assert(open =~= parts.drop_last().push(line));
    let ended = (content + line).push('\n');
    assert(ended.drop_last() =~= content + line);
    let closed = split(ended, '\n');
    assert(closed =~= open.push(Seq::<char>::empty()));
    assert(closed.drop_last() =~= open);
    assert(open.drop_last() =~= parts.drop_last());
    assert(lines(ended) =~= lines(content).push(strip_return(line)));
    if line.len() > 0 {
        assert(lines(content + line) =~= lines(content).push(line));
    }
}

/// A number is written in tens: its last digit stands behind the rest of it.
pub proof fn law_decimal(rest: nat, last: nat)
    requires
        last < 10,
    ensures
        decimal(last).len() == 1,
        decimal(last)[0] as int == '0' as int + last,
        rest > 0 ==> decimal(10 * rest + last) == decimal(rest) + decimal(last),
{
    let c = digit(last);
    let u = (48 + last) as u8;
    assert(u == 48 + last);
    assert(c == u as char);
    assert((u as char) as int == u as int);
    if rest > 0 {
        let n = 10 * rest + last;
        assert(n / 10 == rest && n % 10 == last);
        assert(decimal(n) =~= decimal(rest) + decimal(last));
    }
}

/// A list is joined with its mark between two members, and nowhere else.
pub proof fn law_join(list: Seq<Seq<char>>, last: Seq<char>, mark: Seq<char>)
    ensures
        join(Seq::empty(), mark) == Seq::<char>::empty(),
        join(seq![last], mark) == last,
        list.len() > 0 ==> join(list.push(last), mark) == join(list, mark) + mark + last,
{
    assert(list.push(last).drop_last() =~= list);
}

} // verus!
