//! Text as a sequence of characters: the string operations that the rest of
//! the library is stated over, each with its meaning as a spec function.

use vstd::prelude::*;
use vstd::string::*;
use vstd::utf8::is_ascii_chars;

verus! {

/// `String::push` of std: appends one character.
pub assume_specification[ String::push ](s: &mut String, c: char)
    ensures
        final(s)@ == old(s)@.push(c),
;

/// Names the lowercase form of a text, as `str::to_lowercase` gives it.
pub uninterp spec fn unicode_lowercase(s: Seq<char>) -> Seq<char>;

/// Names the uppercase form of a text, as `str::to_uppercase` gives it.
pub uninterp spec fn unicode_uppercase(s: Seq<char>) -> Seq<char>;

/// `str::to_lowercase` of std. The result depends on the text alone, and on a
/// text of ASCII characters it is the text with `A` to `Z` mapped to `a` to `z`.
#[verifier::external_body]
pub(crate) fn lowercase(text: &str) -> (r: String)
    ensures
        r@ == unicode_lowercase(text@),
        is_ascii_chars(text@) ==> r@ == ascii_lowercase(text@),
{
    text.to_lowercase()
}

/// `str::to_uppercase` of std. The result depends on the text alone, and on a
/// text of ASCII characters it is the text with `a` to `z` mapped to `A` to `Z`.
#[verifier::external_body]
pub(crate) fn uppercase(text: &str) -> (r: String)
    ensures
        r@ == unicode_uppercase(text@),
        is_ascii_chars(text@) ==> r@ == ascii_uppercase(text@),
{
    text.to_uppercase()
}

// ---------------------------------------------------------------------------
// Characters
// ---------------------------------------------------------------------------

/// The characters of Unicode with the property White_Space.
pub open spec fn white_space(c: char) -> bool {
    ||| '\u{9}' <= c <= '\u{d}'
    ||| c == ' '
    ||| c == '\u{85}'
    ||| c == '\u{a0}'
    ||| c == '\u{1680}'
    ||| '\u{2000}' <= c <= '\u{200a}'
    ||| c == '\u{2028}'
    ||| c == '\u{2029}'
    ||| c == '\u{202f}'
    ||| c == '\u{205f}'
    ||| c == '\u{3000}'
}

/// Whether `c` has the Unicode property White_Space.
pub fn is_white_space(c: char) -> (r: bool)
    ensures
        r == white_space(c),
{
    ('\u{9}' <= c && c <= '\u{d}') || c == ' ' || c == '\u{85}' || c == '\u{a0}' || c == '\u{1680}'
        || ('\u{2000}' <= c && c <= '\u{200a}') || c == '\u{2028}' || c == '\u{2029}' || c
        == '\u{202f}' || c == '\u{205f}' || c == '\u{3000}'
}

pub open spec fn ascii_lower_char(c: char) -> char {
    if 'A' <= c <= 'Z' {
        (c as u8 + 32) as char
    } else {
        c
    }
}

pub open spec fn ascii_upper_char(c: char) -> char {
    if 'a' <= c <= 'z' {
        (c as u8 - 32) as char
    } else {
        c
    }
}

pub open spec fn ascii_alphanumeric(c: char) -> bool {
    'a' <= c <= 'z' || 'A' <= c <= 'Z' || '0' <= c <= '9'
}

fn lower_char(c: char) -> (r: char)
    ensures
        r == ascii_lower_char(c),
{
    if 'A' <= c && c <= 'Z' {
        ((c as u8) + 32u8) as char
    } else {
        c
    }
}

// ---------------------------------------------------------------------------
// Conversions
// ---------------------------------------------------------------------------

/// The characters of a text.
pub fn chars_of(s: &str) -> (r: Vec<char>)
    ensures
        r@ == s@,
{
    let mut out: Vec<char> = Vec::new();
    for c in it: s.chars()
        invariant
            out@ == it.seq().take(it.index() as int),
    {
        out.push(c);
    }
    out
}

/// The text made of the characters `from` up to, but not including, `to`.
pub fn text_range(chars: &Vec<char>, from: usize, to: usize) -> (r: String)
    requires
        from <= to <= chars@.len(),
    ensures
        r@ == chars@.subrange(from as int, to as int),
{
    let mut out = String::new();
    let mut i: usize = from;
    while i < to
        invariant
            from <= i <= to <= chars@.len(),
            out@ == chars@.subrange(from as int, i as int),
        decreases to - i,
    {
        out.push(chars[i]);
        i += 1;
    }
    out
}

/// A copy of texts.
pub fn copy_texts(texts: &Vec<String>) -> (r: Vec<String>)
    ensures
        r.deep_view() == texts.deep_view(),
{
    let mut out: Vec<String> = Vec::new();
    let mut i: usize = 0;
    while i < texts.len()
        invariant
            i <= texts@.len(),
            out@.len() == i,
            forall|k: int| 0 <= k < i ==> (#[trigger] out@[k])@ == texts@[k]@,
        decreases texts@.len() - i,
    {
        out.push(texts[i].as_str().to_string());
        i += 1;
    }
    assert(out.deep_view() =~= texts.deep_view());
    out
}

/// The texts of strings.
pub open spec fn string_texts(strings: Seq<String>) -> Seq<Seq<char>> {
    Seq::new(strings.len(), |i: int| strings[i]@)
}

/// Whether two texts hold the same characters.
pub fn same_text(a: &str, b: &str) -> (r: bool)
    ensures
        r == (a@ == b@),
{
    a.to_owned() == b.to_owned()
}

// ---------------------------------------------------------------------------
// Searching
// ---------------------------------------------------------------------------

/// `p` stands in `s` at position `i`.
pub open spec fn occurs_at(s: Seq<char>, p: Seq<char>, i: int) -> bool {
    0 <= i && i + p.len() <= s.len() && s.subrange(i, i + p.len()) == p
}

pub open spec fn starts_with(s: Seq<char>, p: Seq<char>) -> bool {
    occurs_at(s, p, 0)
}

pub open spec fn ends_with(s: Seq<char>, p: Seq<char>) -> bool {
    occurs_at(s, p, s.len() - p.len())
}

pub open spec fn contains_text(s: Seq<char>, p: Seq<char>) -> bool {
    exists|i: int| occurs_at(s, p, i)
}

/// The first position at `from` or after it where `p` stands in `s`.
pub open spec fn find_from(s: Seq<char>, p: Seq<char>, from: int) -> Option<int>
    decreases s.len() + 1 - from,
{
    if from + p.len() > s.len() {
        None
    } else if occurs_at(s, p, from) {
        Some(from)
    } else {
        find_from(s, p, from + 1)
    }
}

fn matches_at(s: &Vec<char>, p: &Vec<char>, at: usize) -> (r: bool)
    ensures
        r == occurs_at(s@, p@, at as int),
{
    if p.len() > s.len() || at > s.len() - p.len() {
        return false;
    }
    let mut i: usize = 0;
    while i < p.len()
        invariant
            i <= p.len(),
            at + p.len() <= s.len(),
            forall|j: int| 0 <= j < i ==> s@[at + j] == p@[j],
        decreases p@.len() - i,
    {
        if s[at + i] != p[i] {
            assert(s@.subrange(at as int, at + p@.len())[i as int] != p@[i as int]);
            return false;
        }
        i += 1;
    }
    assert(s@.subrange(at as int, at + p@.len()) == p@);
    true
}

fn find_chars(s: &Vec<char>, p: &Vec<char>, from: usize) -> (r: Option<usize>)
    requires
        from <= s@.len(),
    ensures
        match r {
            Some(i) => find_from(s@, p@, from as int) == Some(i as int) && i + p.len() <= s.len()
                && from <= i,
            None => find_from(s@, p@, from as int) is None,
        },
{
    if p.len() > s.len() {
        return None;
    }
    let last: usize = s.len() - p.len();
    let mut i: usize = from;
    while i <= last
        invariant
            p@.len() <= s@.len(),
            last == s@.len() - p@.len(),
            from <= i <= s@.len() + 1,
            find_from(s@, p@, from as int) == find_from(s@, p@, i as int),
        decreases last + 1 - i,
    {
        if matches_at(s, p, i) {
            return Some(i);
        }
        if i == last {
            assert(find_from(s@, p@, i + 1) is None);
            return None;
        }
        i += 1;
    }
    None
}

/// What `find_from` returns is an occurrence, and the first one.
pub proof fn lemma_find_from(s: Seq<char>, p: Seq<char>, from: int)
    requires
        0 <= from,
    ensures
        match find_from(s, p, from) {
            Some(i) => from <= i && occurs_at(s, p, i) && forall|j: int|
                from <= j < i ==> !occurs_at(s, p, j),
            None => forall|j: int| from <= j ==> !occurs_at(s, p, j),
        },
    decreases s.len() + 1 - from,
{
    if from + p.len() > s.len() {
    } else if occurs_at(s, p, from) {
    } else {
        lemma_find_from(s, p, from + 1);
    }
}

/// Searching in the tail of a text is searching in the text, shifted.
pub proof fn lemma_find_skip(s: Seq<char>, p: Seq<char>, start: int, from: int)
    requires
        0 <= start <= s.len(),
        0 <= from,
    ensures
        find_from(s, p, start + from) == match find_from(s.skip(start), p, from) {
            Some(i) => Some(start + i),
            None => None::<int>,
        },
    decreases s.len() + 1 - start - from,
{
    let t = s.skip(start);
    if from + p.len() <= t.len() {
        assert(t.subrange(from, from + p.len()) == s.subrange(
            start + from,
            start + from + p.len(),
        ));
        if !occurs_at(t, p, from) {
            lemma_find_skip(s, p, start, from + 1);
        }
    }
}

/// Whether the text begins with `prefix`.
pub fn begins_with(text: &str, prefix: &str) -> (r: bool)
    ensures
        r == starts_with(text@, prefix@),
{
    matches_at(&chars_of(text), &chars_of(prefix), 0)
}

/// Whether the text ends with `suffix`.
pub fn finishes_with(text: &str, suffix: &str) -> (r: bool)
    ensures
        r == ends_with(text@, suffix@),
{
    let s = chars_of(text);
    let p = chars_of(suffix);
    if p.len() > s.len() {
        return false;
    }
    matches_at(&s, &p, s.len() - p.len())
}

/// Whether `part` stands somewhere in the text.
pub fn has_text(text: &str, part: &str) -> (r: bool)
    ensures
        r == contains_text(text@, part@),
{
    let s = chars_of(text);
    let p = chars_of(part);
    let found = find_chars(&s, &p, 0);
    proof {
        lemma_find_from(s@, p@, 0);
        if found is None && contains_text(text@, part@) {
            let i = choose|i: int| occurs_at(text@, part@, i);
            assert(!occurs_at(text@, part@, i));
        }
    }
    found.is_some()
}

/// Whether the character stands somewhere in the text.
pub fn has_char(text: &str, c: char) -> (r: bool)
    ensures
        r == text@.contains(c),
{
    let s = chars_of(text);
    let mut i: usize = 0;
    while i < s.len()
        invariant
            i <= s@.len(),
            s@ == text@,
            forall|j: int| 0 <= j < i ==> s@[j] != c,
        decreases s@.len() - i,
    {
        if s[i] == c {
            assert(text@[i as int] == c);
            return true;
        }
        i += 1;
    }
    false
}

/// The text after `prefix`, if it begins with it.
pub fn without_prefix(text: &str, prefix: &str) -> (r: Option<String>)
    ensures
        r is Some == starts_with(text@, prefix@),
        r is Some ==> r->0@ == text@.skip(prefix@.len() as int),
{
    let s = chars_of(text);
    let p = chars_of(prefix);
    if matches_at(&s, &p, 0) {
        Some(text_range(&s, p.len(), s.len()))
    } else {
        None
    }
}

// ---------------------------------------------------------------------------
// Order
// ---------------------------------------------------------------------------

/// `a` comes before `b` in the order of a dictionary, or is the same.
pub open spec fn text_le(a: Seq<char>, b: Seq<char>) -> bool
    decreases a.len(),
{
    if a.len() == 0 {
        true
    } else if b.len() == 0 {
        false
    } else if a[0] == b[0] {
        text_le(a.skip(1), b.skip(1))
    } else {
        a[0] < b[0]
    }
}

/// The texts stand in the order of a dictionary.
pub open spec fn sorted_texts(texts: Seq<Seq<char>>) -> bool {
    forall|i: int, j: int| 0 <= i <= j < texts.len() ==> text_le(#[trigger] texts[i], #[trigger] texts[j])
}

pub proof fn lemma_text_le_total(a: Seq<char>, b: Seq<char>)
    ensures
        text_le(a, b) || text_le(b, a),
        text_le(a, a),
    decreases a.len(),
{
    if a.len() > 0 {
        if b.len() > 0 {
            lemma_text_le_total(a.skip(1), b.skip(1));
        } else {
            lemma_text_le_total(a.skip(1), b);
        }
    }
}

pub proof fn lemma_text_le_trans(a: Seq<char>, b: Seq<char>, c: Seq<char>)
    requires
        text_le(a, b),
        text_le(b, c),
    ensures
        text_le(a, c),
    decreases a.len(),
{
    if a.len() > 0 && b.len() > 0 && c.len() > 0 && a[0] == b[0] && b[0] == c[0] {
        lemma_text_le_trans(a.skip(1), b.skip(1), c.skip(1));
    }
}

/// Whether a text comes before another one, or is the same.
pub fn comes_first(a: &str, b: &str) -> (r: bool)
    ensures
        r == text_le(a@, b@),
{
    let s = chars_of(a);
    let t = chars_of(b);
    let mut i: usize = 0;
    proof {
        assert(s@.skip(0) =~= s@);
        assert(t@.skip(0) =~= t@);
    }
    while i < s.len() && i < t.len()
        invariant
            i <= s@.len(),
            i <= t@.len(),
            s@ == a@,
            t@ == b@,
            text_le(a@, b@) == text_le(s@.skip(i as int), t@.skip(i as int)),
        decreases s@.len() - i,
    {
        proof {
            assert(s@.skip(i as int).skip(1) =~= s@.skip(i + 1));
            assert(t@.skip(i as int).skip(1) =~= t@.skip(i + 1));
        }
        if s[i] != t[i] {
            return s[i] < t[i];
        }
        i += 1;
    }
    i == s.len()
}

proof fn lemma_insert_multiset(texts: Seq<Seq<char>>, at: int, item: Seq<char>)
    requires
        0 <= at <= texts.len(),
    ensures
        texts.insert(at, item).to_multiset() == texts.to_multiset().insert(item),
{
    let after = texts.insert(at, item);
    assert(after.remove(at) =~= texts);
    vstd::seq_lib::to_multiset_remove(after, at);
    after.to_multiset_ensures();
    assert(after.contains(item)) by {
        assert(after[at] == item);
    }
    assert(after.to_multiset() =~= after.to_multiset().remove(item).insert(item));
}

/// The texts in the order of a dictionary.
pub fn sort(texts: &Vec<String>) -> (r: Vec<String>)
    ensures
        sorted_texts(r.deep_view()),
        r.deep_view().to_multiset() == texts.deep_view().to_multiset(),
        r@.len() == texts@.len(),
{
    let mut out: Vec<String> = Vec::new();
    let ghost all = texts.deep_view();
    let mut i: usize = 0;
    assert(out.deep_view() =~= all.take(0));
    while i < texts.len()
        invariant
            i <= texts@.len(),
            all == texts.deep_view(),
            out@.len() == i,
            sorted_texts(out.deep_view()),
            out.deep_view().to_multiset() == all.take(i as int).to_multiset(),
        decreases texts@.len() - i,
    {
        let item = texts[i].as_str();
        let ghost before = out.deep_view();
        let mut at: usize = out.len();
        while at > 0 && !comes_first(out[at - 1].as_str(), item)
            invariant
                at <= out@.len(),
                before == out.deep_view(),
                sorted_texts(before),
                forall|k: int| at <= k < before.len() ==> !text_le(#[trigger] before[k], item@),
            decreases at,
        {
            at -= 1;
        }
        proof {
            assert(before.len() == out@.len());
            assert(at > 0 ==> text_le(before[at - 1], item@));
        }
        let copy = item.to_string();
        out.insert(at, copy);
        proof {
            let after = out.deep_view();
            assert(after =~= before.insert(at as int, item@));
            lemma_insert_multiset(before, at as int, item@);
            assert(all.take(i + 1) =~= all.take(i as int).push(item@));
            vstd::seq_lib::to_multiset_build(all.take(i as int), item@);
            assert forall|x: int, y: int| 0 <= x <= y < after.len() implies text_le(
                #[trigger] after[x],
                #[trigger] after[y],
            ) by {
                if x == y {
                    lemma_text_le_total(after[x], after[x]);
                } else if y < at {
                    assert(after[x] == before[x] && after[y] == before[y]);
                } else if y == at {
                    assert(after[x] == before[x]);
                    assert(text_le(before[x], before[at - 1]));
                    lemma_text_le_trans(before[x], before[at - 1], item@);
                } else if x == at {
                    assert(after[y] == before[y - 1]);
                    lemma_text_le_total(before[y - 1], item@);
                } else if x < at {
                    assert(after[x] == before[x] && after[y] == before[y - 1]);
                } else {
                    assert(after[x] == before[x - 1] && after[y] == before[y - 1]);
                }
            }
        }
        i += 1;
    }
    assert(all.take(i as int) =~= all);
    out
}

// ---------------------------------------------------------------------------
// Splitting and joining
// ---------------------------------------------------------------------------

/// The pieces of `s` between the occurrences of `sep`, searched from the left
/// and without overlap.
pub open spec fn split_text(s: Seq<char>, sep: Seq<char>) -> Seq<Seq<char>>
    decreases s.len(),
{
    match find_from(s, sep, 0) {
        Some(i) => if 0 <= i && 0 < sep.len() && i + sep.len() <= s.len() {
            seq![s.take(i)] + split_text(s.skip(i + sep.len()), sep)
        } else {
            seq![s]
        },
        None => seq![s],
    }
}

/// The pieces one after the other, with `sep` between neighbours.
pub open spec fn join_texts(parts: Seq<Seq<char>>, sep: Seq<char>) -> Seq<char>
    decreases parts.len(),
{
    if parts.len() == 0 {
        Seq::empty()
    } else if parts.len() == 1 {
        parts[0]
    } else {
        join_texts(parts.drop_last(), sep) + sep + parts.last()
    }
}

/// The text with every occurrence of `from` written as `to`.
pub open spec fn replace_text(s: Seq<char>, from: Seq<char>, to: Seq<char>) -> Seq<char> {
    join_texts(split_text(s, from), to)
}

/// Splits a text at every occurrence of the separator.
pub fn split(text: &str, sep: &str) -> (r: Vec<String>)
    requires
        sep@.len() > 0,
    ensures
        r.deep_view() == split_text(text@, sep@),
        r@.len() > 0,
{
    let s = chars_of(text);
    let p = chars_of(sep);
    let mut out: Vec<String> = Vec::new();
    let mut start: usize = 0;
    proof {
        assert(s@.skip(0) == s@);
        assert(out.deep_view() + split_text(s@, p@) == split_text(s@, p@));
    }
    loop
        invariant_except_break
            start <= s@.len(),
            p@.len() > 0,
            out.deep_view() + split_text(s@.skip(start as int), p@) == split_text(s@, p@),
        ensures
            out.deep_view() == split_text(s@, p@),
            out@.len() > 0,
        decreases s@.len() - start,
    {
        let ghost rest = s@.skip(start as int);
        let ghost before = out.deep_view();
        proof {
            lemma_find_skip(s@, p@, start as int, 0);
        }
        match find_chars(&s, &p, start) {
            Some(i) => {
                let piece = text_range(&s, start, i);
                out.push(piece);
                start = i + p.len();
                proof {
                    assert(piece@ == rest.take(i - (s@.len() - rest.len())));
                    assert(s@.skip(start as int) == rest.skip(start - (s@.len() - rest.len())));
                    assert(out.deep_view() == before.push(piece@));
                    assert(before + (seq![piece@] + split_text(s@.skip(start as int), p@))
                        == before.push(piece@) + split_text(s@.skip(start as int), p@));
                }
            },
            None => {
                let piece = text_range(&s, start, s.len());
                out.push(piece);
                proof {
                    assert(piece@ == rest);
                    assert(out.deep_view() == before.push(piece@));
                    assert(before + seq![rest] == before.push(rest));
                }
                break;
            },
        }
    }
    out
}

/// Joins the texts from `from` up to, but not including, `to`, with the separator
/// between neighbours.
pub fn join_range(parts: &Vec<String>, from: usize, to: usize, sep: &str) -> (r: String)
    requires
        from <= to <= parts@.len(),
    ensures
        r@ == join_texts(parts.deep_view().subrange(from as int, to as int), sep@),
{
    let mut out = String::new();
    let mut i: usize = from;
    while i < to
        invariant
            from <= i <= to <= parts@.len(),
            out@ == join_texts(parts.deep_view().subrange(from as int, i as int), sep@),
        decreases to - i,
    {
        let ghost upto = parts.deep_view().subrange(from as int, i as int + 1);
        proof {
            assert(upto.drop_last() == parts.deep_view().subrange(from as int, i as int));
            assert(upto.last() == parts@[i as int]@);
        }
        if i > from {
            out.append(sep);
            out.append(parts[i].as_str());
        } else {
            out.append(parts[i].as_str());
            assert(out@ == parts@[i as int]@);
        }
        i += 1;
    }
    out
}

/// Joins the texts, with the separator between neighbours.
pub fn join(parts: &Vec<String>, sep: &str) -> (r: String)
    ensures
        r@ == join_texts(parts.deep_view(), sep@),
{
    assert(parts.deep_view().subrange(0, parts@.len() as int) == parts.deep_view());
    join_range(parts, 0, parts.len(), sep)
}

/// Replaces every occurrence of `from` by `to`.
pub fn replace(text: &str, from: &str, to: &str) -> (r: String)
    requires
        from@.len() > 0,
    ensures
        r@ == replace_text(text@, from@, to@),
{
    join(&split(text, from), to)
}

/// Splitting has at least one piece.
pub proof fn lemma_split_nonempty(s: Seq<char>, sep: Seq<char>)
    ensures
        split_text(s, sep).len() >= 1,
{
}

/// Joining a piece in front of others.
pub proof fn lemma_join_front(first: Seq<char>, rest: Seq<Seq<char>>, sep: Seq<char>)
    requires
        rest.len() > 0,
    ensures
        join_texts(seq![first] + rest, sep) == first + sep + join_texts(rest, sep),
    decreases rest.len(),
{
    let all = seq![first] + rest;
    assert(all.last() == rest.last());
    assert(all.drop_last() == seq![first] + rest.drop_last());
    if rest.len() > 1 {
        lemma_join_front(first, rest.drop_last(), sep);
        assert(join_texts(all, sep) == join_texts(all.drop_last(), sep) + sep + all.last());
        assert(first + sep + join_texts(rest.drop_last(), sep) + sep + rest.last() == first + sep
            + (join_texts(rest.drop_last(), sep) + sep + rest.last()));
    } else {
        assert(all.drop_last() == seq![first]);
        assert(join_texts(all.drop_last(), sep) == first);
        assert(join_texts(rest, sep) == rest[0]);
    }
}

/// Joining what was split, with the same separator, gives the text back.
pub proof fn lemma_split_join(s: Seq<char>, sep: Seq<char>)
    ensures
        join_texts(split_text(s, sep), sep) == s,
    decreases s.len(),
{
    match find_from(s, sep, 0) {
        Some(i) => {
            lemma_find_from(s, sep, 0);
            if 0 < sep.len() {
                let rest = s.skip(i + sep.len());
                lemma_split_join(rest, sep);
                lemma_split_nonempty(rest, sep);
                lemma_join_front(s.take(i), split_text(rest, sep), sep);
                assert(s.take(i) + sep + rest == s);
            }
        },
        None => {},
    }
}

// ---------------------------------------------------------------------------
// Trimming
// ---------------------------------------------------------------------------

/// `s` without the white space at its start.
pub open spec fn trim_start_text(s: Seq<char>) -> Seq<char>
    decreases s.len(),
{
    if s.len() > 0 && white_space(s[0]) {
        trim_start_text(s.skip(1))
    } else {
        s
    }
}

/// `s` without the white space at its end.
pub open spec fn trim_end_text(s: Seq<char>) -> Seq<char>
    decreases s.len(),
{
    if s.len() > 0 && white_space(s.last()) {
        trim_end_text(s.drop_last())
    } else {
        s
    }
}

/// `s` without the white space at its two ends.
pub open spec fn trim_text(s: Seq<char>) -> Seq<char> {
    trim_end_text(trim_start_text(s))
}

/// `s` without the characters `c` at its end.
pub open spec fn trim_end_char_text(s: Seq<char>, c: char) -> Seq<char>
    decreases s.len(),
{
    if s.len() > 0 && s.last() == c {
        trim_end_char_text(s.drop_last(), c)
    } else {
        s
    }
}

/// Number of white space characters at the start.
fn leading_white_space(s: &Vec<char>) -> (r: usize)
    ensures
        r <= s@.len(),
        trim_start_text(s@) == s@.skip(r as int),
        forall|j: int| 0 <= j < r ==> white_space(s@[j]),
        r < s@.len() ==> !white_space(s@[r as int]),
{
    let mut i: usize = 0;
    assert(s@.skip(0) == s@);
    while i < s.len() && is_white_space(s[i])
        invariant
            i <= s@.len(),
            trim_start_text(s@) == trim_start_text(s@.skip(i as int)),
            forall|j: int| 0 <= j < i ==> white_space(s@[j]),
        decreases s@.len() - i,
    {
        assert(s@.skip(i as int).skip(1) == s@.skip(i + 1));
        i += 1;
    }
    i
}

/// End of `s[from..]` once the white space at its end is left out.
fn end_before_white_space(s: &Vec<char>, from: usize) -> (r: usize)
    requires
        from <= s@.len(),
    ensures
        from <= r <= s@.len(),
        trim_end_text(s@.skip(from as int)) == s@.subrange(from as int, r as int),
{
    let mut end: usize = s.len();
    assert(s@.skip(from as int) == s@.subrange(from as int, end as int));
    while end > from && is_white_space(s[end - 1])
        invariant
            from <= end <= s@.len(),
            trim_end_text(s@.skip(from as int)) == trim_end_text(
                s@.subrange(from as int, end as int),
            ),
        decreases end,
    {
        assert(s@.subrange(from as int, end as int).drop_last() == s@.subrange(
            from as int,
            end - 1,
        ));
        end -= 1;
    }
    end
}

/// The text without the white space at its start.
pub fn trim_start(text: &str) -> (r: String)
    ensures
        r@ == trim_start_text(text@),
{
    let s = chars_of(text);
    let from = leading_white_space(&s);
    assert(s@.skip(from as int) == s@.subrange(from as int, s@.len() as int));
    text_range(&s, from, s.len())
}

/// The text without the white space at its two ends.
pub fn trim(text: &str) -> (r: String)
    ensures
        r@ == trim_text(text@),
{
    let s = chars_of(text);
    let from = leading_white_space(&s);
    let to = end_before_white_space(&s, from);
    text_range(&s, from, to)
}

/// The text without the characters `c` at its end.
pub fn trim_end_char(text: &str, c: char) -> (r: String)
    ensures
        r@ == trim_end_char_text(text@, c),
{
    let s = chars_of(text);
    let mut end: usize = s.len();
    assert(s@.take(end as int) == s@);
    while end > 0 && s[end - 1] == c
        invariant
            end <= s@.len(),
            trim_end_char_text(s@, c) == trim_end_char_text(s@.take(end as int), c),
        decreases end,
    {
        assert(s@.take(end as int).drop_last() == s@.take(end - 1));
        end -= 1;
    }
    text_range(&s, 0, end)
}

/// Whether nothing but white space stands in the text.
pub fn is_blank(text: &str) -> (r: bool)
    ensures
        r == (trim_text(text@).len() == 0),
{
    trim(text).as_str().is_empty()
}

/// A text is blank exactly if all its characters are white space.
pub proof fn lemma_blank(s: Seq<char>)
    ensures
        trim_text(s).len() == 0 <==> forall|i: int| 0 <= i < s.len() ==> white_space(s[i]),
    decreases s.len(),
{
    if s.len() > 0 && white_space(s[0]) {
        let t = s.skip(1);
        lemma_blank(t);
        assert(forall|i: int| 0 <= i < t.len() ==> t[i] == s[i + 1]);
        if forall|i: int| 0 <= i < t.len() ==> white_space(t[i]) {
            assert forall|i: int| 0 <= i < s.len() implies white_space(s[i]) by {
                if i > 0 {
                    assert(s[i] == t[i - 1]);
                }
            }
        }
    } else if s.len() > 0 {
        lemma_trim_end_keeps(s);
    }
}

/// Trimming at the end keeps everything up to a character that is no white space.
pub proof fn lemma_trim_end_keeps(s: Seq<char>)
    requires
        s.len() > 0,
        !white_space(s[0]),
    ensures
        trim_end_text(s).len() > 0,
    decreases s.len(),
{
    if white_space(s.last()) {
        lemma_trim_end_keeps(s.drop_last());
    }
}

// ---------------------------------------------------------------------------
// Lines
// ---------------------------------------------------------------------------

/// A line without the carriage return that stands before its line feed.
pub open spec fn without_return(line: Seq<char>) -> Seq<char> {
    if line.len() > 0 && line.last() == '\r' {
        line.drop_last()
    } else {
        line
    }
}

/// The lines of a text: each ends at a line feed, or at a carriage return and a
/// line feed; what follows the last line feed is a line if it is not empty.
pub open spec fn lines_of(s: Seq<char>) -> Seq<Seq<char>>
    decreases s.len(),
{
    if s.len() == 0 {
        Seq::empty()
    } else {
        match find_from(s, seq!['\n'], 0) {
            Some(i) => if 0 <= i < s.len() {
                seq![without_return(s.take(i))] + lines_of(s.skip(i + 1))
            } else {
                Seq::empty()
            },
            None => seq![s],
        }
    }
}

/// The lines of a text.
pub fn lines(text: &str) -> (r: Vec<String>)
    ensures
        r.deep_view() == lines_of(text@),
{
    let s = chars_of(text);
    let feed: Vec<char> = vec!['\n'];
    let mut out: Vec<String> = Vec::new();
    let mut start: usize = 0;
    proof {
        assert(feed@ == seq!['\n']);
        assert(s@.skip(0) == s@);
        assert(out.deep_view() + lines_of(s@) == lines_of(s@));
    }
    while start < s.len()
        invariant
            start <= s@.len(),
            feed@ == seq!['\n'],
            out.deep_view() + lines_of(s@.skip(start as int)) == lines_of(s@),
        decreases s@.len() - start,
    {
        let ghost rest = s@.skip(start as int);
        let ghost before = out.deep_view();
        proof {
            lemma_find_skip(s@, feed@, start as int, 0);
        }
        match find_chars(&s, &feed, start) {
            Some(i) => {
                let end: usize = if i > start && s[i - 1] == '\r' {
                    i - 1
                } else {
                    i
                };
                let line = text_range(&s, start, end);
                proof {
                    let k = i - (s@.len() - rest.len());
                    assert(rest.take(k) == s@.subrange(start as int, i as int));
                    if k > 0 {
                        assert(rest.take(k).last() == s@[i - 1]);
                        assert(rest.take(k).drop_last() == s@.subrange(start as int, i - 1));
                    }
                    assert(line@ == without_return(rest.take(k)));
                    assert(rest.skip(k + 1) == s@.skip(i + 1));
                }
                out.push(line);
                start = i + 1;
                proof {
                    assert(out.deep_view() == before.push(line@));
                    assert(before + (seq![line@] + lines_of(s@.skip(start as int)))
                        == before.push(line@) + lines_of(s@.skip(start as int)));
                }
            },
            None => {
                let line = text_range(&s, start, s.len());
                assert(line@ == rest);
                out.push(line);
                start = s.len();
                proof {
                    assert(out.deep_view() == before.push(rest));
                    assert(s@.skip(start as int).len() == 0);
                    assert(lines_of(s@.skip(start as int)) == Seq::<Seq<char>>::empty());
                    assert(before + seq![rest] == before.push(rest) + Seq::<Seq<char>>::empty());
                }
            },
        }
    }
    proof {
        assert(s@.skip(start as int).len() == 0);
        assert(out.deep_view() + Seq::<Seq<char>>::empty() == out.deep_view());
    }
    out
}

// ---------------------------------------------------------------------------
// ASCII case
// ---------------------------------------------------------------------------

/// `s` with `A` to `Z` written as `a` to `z`.
pub open spec fn ascii_lowercase(s: Seq<char>) -> Seq<char> {
    Seq::new(s.len(), |i: int| ascii_lower_char(s[i]))
}

/// `s` with `a` to `z` written as `A` to `Z`.
pub open spec fn ascii_uppercase(s: Seq<char>) -> Seq<char> {
    Seq::new(s.len(), |i: int| ascii_upper_char(s[i]))
}

/// The text with `A` to `Z` written as `a` to `z`.
pub fn to_ascii_lowercase(text: &str) -> (r: String)
    ensures
        r@ == ascii_lowercase(text@),
{
    let s = chars_of(text);
    let mut out = String::new();
    let mut i: usize = 0;
    while i < s.len()
        invariant
            i <= s@.len(),
            out@ == ascii_lowercase(s@).take(i as int),
        decreases s@.len() - i,
    {
        out.push(lower_char(s[i]));
        i += 1;
    }
    assert(ascii_lowercase(s@).take(i as int) == ascii_lowercase(s@));
    out
}

/// Whether two texts are the same but for the case of ASCII letters.
pub fn same_ignoring_ascii_case(a: &str, b: &str) -> (r: bool)
    ensures
        r == (ascii_lowercase(a@) == ascii_lowercase(b@)),
{
    to_ascii_lowercase(a) == to_ascii_lowercase(b)
}

// ---------------------------------------------------------------------------
// Numbers
// ---------------------------------------------------------------------------

pub open spec fn digit_char(d: int) -> char {
    if d == 0 {
        '0'
    } else if d == 1 {
        '1'
    } else if d == 2 {
        '2'
    } else if d == 3 {
        '3'
    } else if d == 4 {
        '4'
    } else if d == 5 {
        '5'
    } else if d == 6 {
        '6'
    } else if d == 7 {
        '7'
    } else if d == 8 {
        '8'
    } else {
        '9'
    }
}

/// A natural number in decimal digits, without leading zeros.
pub open spec fn decimal_nat(n: nat) -> Seq<char>
    decreases n,
{
    if n < 10 {
        seq![digit_char(n as int)]
    } else {
        decimal_nat(n / 10).push(digit_char((n % 10) as int))
    }
}

/// A whole number in decimal, with a minus sign if it is negative.
pub open spec fn decimal(n: int) -> Seq<char> {
    if n < 0 {
        seq!['-'] + decimal_nat((-n) as nat)
    } else {
        decimal_nat(n as nat)
    }
}

fn digit(d: u128) -> (r: char)
    requires
        d < 10,
    ensures
        r == digit_char(d as int),
{
    match d {
        0 => '0',
        1 => '1',
        2 => '2',
        3 => '3',
        4 => '4',
        5 => '5',
        6 => '6',
        7 => '7',
        8 => '8',
        _ => '9',
    }
}

/// Writes an unsigned number of 128 bits in decimal.
pub fn decimal_u128(n: u128) -> (r: String)
    ensures
        r@ == decimal(n as int),
    decreases n,
{
    let mut out = if n < 10 {
        String::new()
    } else {
        decimal_u128(n / 10)
    };
    out.push(digit(n % 10));
    assert(n < 10 ==> out@ == seq![digit_char(n as int)]);
    out
}

/// Writes a signed number of 128 bits in decimal.
pub fn decimal_i128(n: i128) -> (r: String)
    ensures
        r@ == decimal(n as int),
{
    if n >= 0 {
        decimal_u128(n as u128)
    } else {
        let magnitude: u128 = (-(n + 1)) as u128 + 1;
        let mut out = "-".to_string();
        out.append(decimal_u128(magnitude).as_str());
        proof {
            reveal_strlit("-");
            assert("-"@ == seq!['-']);
        }
        out
    }
}

/// Writes an unsigned number in decimal.
pub fn decimal_u64(n: u64) -> (r: String)
    ensures
        r@ == decimal(n as int),
{
    decimal_u128(n as u128)
}

/// Writes a signed number in decimal.
pub fn decimal_i64(n: i64) -> (r: String)
    ensures
        r@ == decimal(n as int),
{
    decimal_i128(n as i128)
}

/// Writes a length or a position in decimal.
pub fn decimal_usize(n: usize) -> (r: String)
    ensures
        r@ == decimal(n as int),
{
    decimal_u64(n as u64)
}

pub open spec fn is_digit(c: char) -> bool {
    '0' <= c <= '9'
}

pub open spec fn all_digits(s: Seq<char>) -> bool {
    forall|i: int| 0 <= i < s.len() ==> is_digit(#[trigger] s[i])
}

/// The number that a sequence of decimal digits stands for.
pub open spec fn digits_value(s: Seq<char>) -> nat
    decreases s.len(),
{
    if s.len() == 0 {
        0
    } else {
        10 * digits_value(s.drop_last()) + (s.last() as nat - '0' as nat) as nat
    }
}

/// An unsigned number as text, of at most `max`: decimal digits, at least one,
/// with or without a plus sign in front.
pub open spec fn parse_unsigned_text(s: Seq<char>, max: nat) -> Option<nat> {
    let body = if s.len() > 1 && s[0] == '+' {
        s.skip(1)
    } else {
        s
    };
    if body.len() > 0 && all_digits(body) && digits_value(body) <= max {
        Some(digits_value(body))
    } else {
        None
    }
}

/// A signed number of 64 bits as text: as an unsigned number, or a minus sign
/// and at least one decimal digit.
pub open spec fn parse_i64_text(s: Seq<char>) -> Option<int> {
    if s.len() > 1 && s[0] == '-' {
        let body = s.skip(1);
        if all_digits(body) && digits_value(body) <= 0x8000_0000_0000_0000 {
            Some(-digits_value(body))
        } else {
            None
        }
    } else {
        match parse_unsigned_text(s, i64::MAX as nat) {
            Some(n) => Some(n as int),
            None => None,
        }
    }
}

proof fn lemma_digits_value_prefix(s: Seq<char>, n: int)
    requires
        all_digits(s),
        0 <= n <= s.len(),
    ensures
        digits_value(s.take(n)) <= digits_value(s),
    decreases s.len(),
{
    if n < s.len() {
        assert(all_digits(s.drop_last()));
        lemma_digits_value_prefix(s.drop_last(), n);
        assert(s.drop_last().take(n) == s.take(n));
    } else {
        assert(s.take(n) == s);
    }
}

/// The value of the digits from `from` on, if it is at most `max`.
fn digits_at(s: &Vec<char>, from: usize, max: u64) -> (r: Option<u64>)
    requires
        from <= s@.len(),
    ensures
        r is Some <==> from < s@.len() && all_digits(s@.skip(from as int)) && digits_value(
            s@.skip(from as int),
        ) <= max,
        r is Some ==> r->0 == digits_value(s@.skip(from as int)),
{
    let ghost body = s@.skip(from as int);
    let mut value: u64 = 0;
    let mut i: usize = from;
    if from == s.len() {
        return None;
    }
    while i < s.len()
        invariant
            from <= i <= s@.len(),
            body == s@.skip(from as int),
            forall|j: int| 0 <= j < i - from ==> is_digit(#[trigger] body[j]),
            value == digits_value(body.take(i - from)),
            value <= max,
        decreases s@.len() - i,
    {
        let c = s[i];
        assert(body[i - from] == c);
        if !('0' <= c && c <= '9') {
            assert(!is_digit(body[i - from]));
            return None;
        }
        let d: u64 = (c as u8 - 48u8) as u64;
        let ghost next = body.take(i - from + 1);
        proof {
            assert(next.drop_last() == body.take(i - from));
            assert(next.last() == c);
            assert(digits_value(next) == 10 * value + d);
            if all_digits(body) {
                lemma_digits_value_prefix(body, i - from + 1);
            }
        }
        if value > (max - if d <= max { d } else { max }) / 10 || d > max {
            return None;
        }
        value = value * 10 + d;
        i += 1;
    }
    proof {
        assert(body.take(i - from) == body);
    }
    Some(value)
}

/// Reads an unsigned number of at most `max`.
pub fn parse_unsigned(text: &str, max: u64) -> (r: Option<u64>)
    ensures
        match r {
            Some(n) => parse_unsigned_text(text@, max as nat) == Some(n as nat),
            None => parse_unsigned_text(text@, max as nat) is None,
        },
{
    let s = chars_of(text);
    assert(s@.skip(0) == s@);
    if s.len() > 1 && s[0] == '+' {
        digits_at(&s, 1, max)
    } else {
        digits_at(&s, 0, max)
    }
}

/// Reads a signed number of 64 bits.
pub fn parse_i64(text: &str) -> (r: Option<i64>)
    ensures
        match r {
            Some(n) => parse_i64_text(text@) == Some(n as int),
            None => parse_i64_text(text@) is None,
        },
{
    let s = chars_of(text);
    if s.len() > 1 && s[0] == '-' {
        match digits_at(&s, 1, 0x8000_0000_0000_0000) {
            Some(0x8000_0000_0000_0000) => Some(i64::MIN),
            Some(n) => Some(-(n as i64)),
            None => None,
        }
    } else {
        match parse_unsigned(text, i64::MAX as u64) {
            Some(n) => Some(n as i64),
            None => None,
        }
    }
}

/// A number that was written in decimal is read back.
pub proof fn lemma_decimal_read_back(n: nat)
    ensures
        decimal_nat(n).len() > 0,
        all_digits(decimal_nat(n)),
        digits_value(decimal_nat(n)) == n,
        parse_unsigned_text(decimal(n as int), n) == Some(n),
        forall|max: nat| n <= max ==> #[trigger] parse_unsigned_text(decimal(n as int), max) == Some(n),
    decreases n,
{
    let s = decimal_nat(n);
    if n < 10 {
        assert(s.drop_last() =~= Seq::<char>::empty());
        assert(digits_value(s.drop_last()) == 0);
    } else {
        lemma_decimal_read_back(n / 10);
        assert(s.drop_last() =~= decimal_nat(n / 10));
        assert forall|i: int| 0 <= i < s.len() implies is_digit(#[trigger] s[i]) by {
            if i < s.len() - 1 {
                assert(s[i] == decimal_nat(n / 10)[i]);
            }
        }
    }
    assert(is_digit(s[0]));
}

// ---------------------------------------------------------------------------
// Layout
// ---------------------------------------------------------------------------

/// `s` filled up with blanks to `width` characters, on the right.
pub open spec fn pad_text(s: Seq<char>, width: nat) -> Seq<char>
    decreases width - s.len(),
{
    if s.len() < width {
        pad_text(s.push(' '), width)
    } else {
        s
    }
}

/// Fills a text up with blanks to `width` characters, on the right.
pub fn pad(text: &str, width: usize) -> (r: String)
    ensures
        r@ == pad_text(text@, width as nat),
{
    let mut n: usize = text.unicode_len();
    let mut out = text.to_string();
    while n < width
        invariant
            n == out@.len(),
            pad_text(text@, width as nat) == pad_text(out@, width as nat),
        decreases width - n,
    {
        out.push(' ');
        n += 1;
    }
    out
}

/// The two texts, one after the other.
pub fn concat2(a: &str, b: &str) -> (r: String)
    ensures
        r@ == a@ + b@,
{
    let mut out = a.to_string();
    out.append(b);
    out
}

/// The three texts, one after the other.
pub fn concat3(a: &str, b: &str, c: &str) -> (r: String)
    ensures
        r@ == a@ + b@ + c@,
{
    let mut out = a.to_string();
    out.append(b);
    out.append(c);
    out
}

/// The lines of `a`, then those of `b`.
pub fn all_lines(a: Vec<String>, b: Vec<String>) -> (r: Vec<String>)
    ensures
        r.deep_view() == a.deep_view() + b.deep_view(),
{
    let ghost expected = a.deep_view() + b.deep_view();
    let mut out = a;
    let mut rest = b;
    out.append(&mut rest);
    assert(out.deep_view() =~= expected);
    out
}

/// One line.
pub fn one_line(line: String) -> (r: Vec<String>)
    ensures
        r.deep_view() == seq![line@],
{
    let r = vec![line];
    assert(r.deep_view() =~= seq![line@]);
    r
}

/// No line.
pub fn no_lines() -> (r: Vec<String>)
    ensures
        r.deep_view() == Seq::<Seq<char>>::empty(),
{
    let r: Vec<String> = Vec::new();
    assert(r.deep_view() =~= Seq::<Seq<char>>::empty());
    r
}

// ---------------------------------------------------------------------------
// Laws
// ---------------------------------------------------------------------------

/// Trimming takes away white space at the two ends, all of it and nothing else.
pub proof fn law_trimming_takes_white_space(s: Seq<char>)
    ensures
        exists|i: int, j: int|
            #![trigger s.subrange(i, j)]
            0 <= i <= j <= s.len() && trim_text(s) == s.subrange(i, j) && (forall|k: int|
                (0 <= k < i || j <= k < s.len()) ==> white_space(#[trigger] s[k])),
        trim_text(s).len() > 0 ==> !white_space(trim_text(s)[0]) && !white_space(
            trim_text(s).last(),
        ),
{
    let i = lemma_trim_start_place(s);
    let t = trim_start_text(s);
    let j = lemma_trim_end_place(t);
    assert(trim_text(s) =~= s.subrange(i, i + j));
    assert forall|k: int| 0 <= k < i || i + j <= k < s.len() implies white_space(
        #[trigger] s[k],
    ) by {
        if k >= i + j {
            assert(t[k - i] == s[k]);
        }
    }
    if trim_text(s).len() > 0 {
        assert(trim_text(s)[0] == t[0]);
    }
}

proof fn lemma_trim_start_place(s: Seq<char>) -> (i: int)
    ensures
        0 <= i <= s.len(),
        trim_start_text(s) == s.skip(i),
        forall|k: int| 0 <= k < i ==> white_space(#[trigger] s[k]),
        i < s.len() ==> !white_space(s[i]),
    decreases s.len(),
{
    if s.len() > 0 && white_space(s[0]) {
        let n = lemma_trim_start_place(s.skip(1));
        assert(s.skip(1).skip(n) =~= s.skip(n + 1));
        assert forall|k: int| 0 <= k < n + 1 implies white_space(#[trigger] s[k]) by {
            if k > 0 {
                assert(s.skip(1)[k - 1] == s[k]);
            }
        }
        n + 1
    } else {
        assert(s.skip(0) =~= s);
        0
    }
}

proof fn lemma_trim_end_place(s: Seq<char>) -> (j: int)
    ensures
        0 <= j <= s.len(),
        trim_end_text(s) == s.take(j),
        forall|k: int| j <= k < s.len() ==> white_space(#[trigger] s[k]),
        j > 0 ==> !white_space(s[j - 1]),
    decreases s.len(),
{
    if s.len() > 0 && white_space(s.last()) {
        let rest = s.drop_last();
        let n = lemma_trim_end_place(rest);
        assert(rest.take(n) =~= s.take(n));
        assert forall|k: int| n <= k < s.len() implies white_space(#[trigger] s[k]) by {
            if k < rest.len() {
                assert(rest[k] == s[k]);
            }
        }
        n
    } else {
        assert(s.take(s.len() as int) =~= s);
        s.len() as int
    }
}

/// The lines of a text are read back: a line without line feed, followed by a line
/// feed, is the first line, and the lines of what follows are the others. A carriage
/// return in front of the line feed is no part of the line.
pub proof fn law_lines_are_read_back(line: Seq<char>, rest: Seq<char>)
    requires
        !line.contains('\n'),
        line.len() > 0 ==> line.last() != '\r',
    ensures
        lines_of(line.push('\n') + rest) == seq![line] + lines_of(rest),
        lines_of(line.push('\r').push('\n') + rest) == seq![line] + lines_of(rest),
        line.len() > 0 ==> lines_of(line) == seq![line],
        lines_of(Seq::empty()) == Seq::<Seq<char>>::empty(),
{
    let n = line.len() as int;
    let a = line.push('\n') + rest;
    assert forall|k: int| 0 <= k < n implies #[trigger] a[k] != '\n' by {
        assert(a[k] == line[k]);
        assert(line.contains(line[k]));
    }
    lemma_first_feed(a, n);
    assert(a.take(n) =~= line);
    assert(a.skip(n + 1) =~= rest);
    let b = line.push('\r').push('\n') + rest;
    assert forall|k: int| 0 <= k < n + 1 implies #[trigger] b[k] != '\n' by {
        if k < n {
            assert(b[k] == line[k]);
            assert(line.contains(line[k]));
        }
    }
    lemma_first_feed(b, n + 1);
    assert(b.take(n + 1) =~= line.push('\r'));
    assert(line.push('\r').drop_last() =~= line);
    assert(b.skip(n + 2) =~= rest);
    if line.len() > 0 {
        lemma_find_from(line, seq!['\n'], 0);
        if let Some(i) = find_from(line, seq!['\n'], 0) {
            assert(line.subrange(i, i + 1)[0] == line[i]);
            assert(line.contains(line[i]));
        }
    }
}

proof fn lemma_first_feed(s: Seq<char>, at: int)
    requires
        0 <= at < s.len(),
        s[at] == '\n',
        forall|k: int| 0 <= k < at ==> #[trigger] s[k] != '\n',
    ensures
        find_from(s, seq!['\n'], 0) == Some(at),
{
    lemma_find_from(s, seq!['\n'], 0);
    assert(s.subrange(at, at + 1) =~= seq!['\n']);
    assert(occurs_at(s, seq!['\n'], at));
    if let Some(i) = find_from(s, seq!['\n'], 0) {
        assert(s.subrange(i, i + 1)[0] == s[i]);
    }
}

/// A whole number of 64 bits that was written in decimal is read back, with its sign.
pub proof fn law_numbers_are_read_back(n: i64)
    ensures
        parse_i64_text(decimal(n as int)) == Some(n as int),
        n >= 0 ==> decimal(n as int)[0] != '-',
        n < 0 ==> decimal(n as int)[0] == '-',
{
    let magnitude: nat = if n < 0 {
        (-n) as nat
    } else {
        n as nat
    };
    lemma_decimal_read_back(magnitude);
    let digits = decimal_nat(magnitude);
    assert(is_digit(digits[0]));
    if n < 0 {
        assert(decimal(n as int).skip(1) =~= digits);
    }
}

/// A text that is filled up keeps what it holds, is followed by blanks alone, and is
/// as wide as asked for, or stays as it is if it was wider.
pub proof fn law_filling_up_adds_blanks(s: Seq<char>, width: nat)
    ensures
        pad_text(s, width).len() == if s.len() < width {
            width
        } else {
            s.len()
        },
        s.is_prefix_of(pad_text(s, width)),
        forall|k: int| s.len() <= k < pad_text(s, width).len() ==> pad_text(s, width)[k] == ' ',
    decreases width - s.len(),
{
    if s.len() < width {
        let more = s.push(' ');
        law_filling_up_adds_blanks(more, width);
        let r = pad_text(s, width);
        assert(r.subrange(0, more.len() as int)[s.len() as int] == ' ');
        assert(r.subrange(0, s.len() as int) =~= s) by {
            assert forall|k: int| 0 <= k < s.len() implies r[k] == s[k] by {
                assert(r.subrange(0, more.len() as int)[k] == more[k]);
            }
        }
    } else {
        assert(s.subrange(0, s.len() as int) =~= s);
    }
}

/// The pieces of a text between single characters do not hold that character.
pub proof fn law_pieces_hold_no_separator(s: Seq<char>, c: char, i: int)
    requires
        0 <= i < split_text(s, seq![c]).len(),
    ensures
        !split_text(s, seq![c])[i].contains(c),
    decreases s.len(),
{
    let sep = seq![c];
    lemma_find_from(s, sep, 0);
    match find_from(s, sep, 0) {
        Some(at) => {
            let rest = s.skip(at + 1);
            if i == 0 {
                let first = s.take(at);
                if first.contains(c) {
                    let k = choose|k: int| 0 <= k < first.len() && first[k] == c;
                    assert(s.subrange(k, k + 1) =~= sep);
                    assert(occurs_at(s, sep, k));
                }
            } else {
                law_pieces_hold_no_separator(rest, c, i - 1);
            }
        },
        None => {
            if s.contains(c) {
                let k = choose|k: int| 0 <= k < s.len() && s[k] == c;
                assert(s.subrange(k, k + 1) =~= sep);
                assert(occurs_at(s, sep, k));
            }
        },
    }
}

/// Every joined piece stands in the text that joining gives.
pub proof fn law_joined_pieces_are_there(parts: Seq<Seq<char>>, sep: Seq<char>, i: int)
    requires
        0 <= i < parts.len(),
    ensures
        contains_text(join_texts(parts, sep), parts[i]),
    decreases parts.len(),
{
    let none = Seq::<char>::empty();
    if parts.len() == 1 {
        lemma_part_is_there(none, parts[0], none);
        assert(none + parts[0] + none =~= parts[0]);
    } else if i == parts.len() - 1 {
        let front = join_texts(parts.drop_last(), sep) + sep;
        lemma_part_is_there(front, parts[i], none);
        assert(front + parts[i] + none =~= front + parts[i]);
    } else {
        law_joined_pieces_are_there(parts.drop_last(), sep, i);
        let first = join_texts(parts.drop_last(), sep);
        let at = choose|at: int| occurs_at(first, parts[i], at);
        let all = join_texts(parts, sep);
        assert(all.subrange(at, at + parts[i].len()) =~= first.subrange(
            at,
            at + parts[i].len(),
        ));
        assert(occurs_at(all, parts[i], at));
    }
}

/// A part of a text stands in it.
pub proof fn lemma_part_is_there(front: Seq<char>, part: Seq<char>, back: Seq<char>)
    ensures
        contains_text(front + part + back, part),
{
    let s = front + part + back;
    let at = front.len() as int;
    assert(s.subrange(at, at + part.len()) =~= part);
    assert(occurs_at(s, part, at));
}

/// Replacing a character by another one changes every one of them and nothing else.
pub proof fn law_replacing_characters(s: Seq<char>, from: char, to: char)
    ensures
        replace_text(s, seq![from], seq![to]) == Seq::new(
            s.len(),
            |i: int|
                if s[i] == from {
                    to
                } else {
                    s[i]
                },
        ),
    decreases s.len(),
{
    let sep = seq![from];
    let new = seq![to];
    let wanted = Seq::new(
        s.len(),
        |i: int|
            if s[i] == from {
                to
            } else {
                s[i]
            },
    );
    lemma_find_from(s, sep, 0);
    match find_from(s, sep, 0) {
        Some(at) => {
            let first = s.take(at);
            let rest = s.skip(at + 1);
            assert(s.subrange(at, at + 1)[0] == s[at]);
            law_replacing_characters(rest, from, to);
            lemma_split_nonempty(rest, sep);
            lemma_join_front(first, split_text(rest, sep), new);
            assert forall|k: int| 0 <= k < at implies s[k] != from by {
                if s[k] == from {
                    assert(s.subrange(k, k + 1) =~= sep);
                    assert(occurs_at(s, sep, k));
                }
            }
            assert(first + new + replace_text(rest, sep, new) =~= wanted);
        },
        None => {
            assert forall|k: int| 0 <= k < s.len() implies s[k] != from by {
                if s[k] == from {
                    assert(s.subrange(k, k + 1) =~= sep);
                    assert(occurs_at(s, sep, k));
                }
            }
            assert(s =~= wanted);
        },
    }
}

/// In lower case a letter from `A` to `Z` is the one 32 places further on, and every
/// other character is itself.
pub proof fn law_lower_case(s: Seq<char>, i: int)
    requires
        0 <= i < s.len(),
    ensures
        ascii_lowercase(s).len() == s.len(),
        'A' <= s[i] <= 'Z' ==> ascii_lowercase(s)[i] as int == s[i] as int + 32,
        !('A' <= s[i] <= 'Z') ==> ascii_lowercase(s)[i] == s[i],
{
}

/// A sign of plus before a number changes nothing; a number that is too large is
/// none, and so is a text with anything else in it, or with nothing.
pub proof fn law_what_is_a_number(digits: Seq<char>, n: nat, max: nat, other: Seq<char>, i: int)
    requires
        digits.len() > 0,
        is_digit(digits[0]),
        0 <= i < other.len(),
        !('0' <= other[i] <= '9'),
        i > 0 || other[0] != '+',
    ensures
        parse_unsigned_text(seq!['+'] + digits, max) == parse_unsigned_text(digits, max),
        n > max ==> parse_unsigned_text(decimal(n as int), max) is None,
        parse_unsigned_text(other, max) is None,
        parse_unsigned_text(seq!['+'], max) is None,
        parse_unsigned_text(Seq::empty(), max) is None,
{
    assert((seq!['+'] + digits).skip(1) =~= digits);
    lemma_decimal_read_back(n);
    assert(is_digit(decimal_nat(n)[0]));
    if other.len() > 1 && other[0] == '+' {
        assert(other.skip(1)[i - 1] == other[i]);
    } else {
        assert(!is_digit(other[i]));
    }
    assert(!is_digit(seq!['+'][0]));
}

/// The digits of a number have the weights of the decimal system: a digit more makes
/// the number ten times as large and adds the digit.
pub proof fn law_digits_have_their_weights(digits: Seq<char>, d: char)
    requires
        '0' <= d <= '9',
    ensures
        digits_value(digits.push(d)) == 10 * digits_value(digits) + (d as int - '0' as int),
        digits_value(Seq::empty()) == 0,
{
    assert(digits.push(d).drop_last() =~= digits);
}

/// White space is what Unicode gives that property: the controls from the tabulator to
/// the carriage return, the blank, the next line, and the spaces and separators of
/// lines and paragraphs, by their code points.
pub proof fn law_what_is_white_space(c: char)
    ensures
        ({
            let code = c as int;
            white_space(c) <==> 9 <= code <= 13 || code == 32 || code == 0x85 || code == 0xa0
                || code == 0x1680 || 0x2000 <= code <= 0x200a || code == 0x2028 || code == 0x2029
                || code == 0x202f || code == 0x205f || code == 0x3000
        }),
{
}

/// Of a character at the end of a text, all are taken away and nothing else is.
pub proof fn law_trimming_takes_a_character(s: Seq<char>, c: char)
    ensures
        trim_end_char_text(s, c).is_prefix_of(s),
        forall|k: int|
            trim_end_char_text(s, c).len() <= k < s.len() ==> #[trigger] s[k] == c,
        trim_end_char_text(s, c).len() > 0 ==> trim_end_char_text(s, c).last() != c,
    decreases s.len(),
{
    if s.len() > 0 && s.last() == c {
        let rest = s.drop_last();
        law_trimming_takes_a_character(rest, c);
        let kept = trim_end_char_text(s, c);
        assert(kept.len() <= rest.len());
        assert(rest.subrange(0, kept.len() as int) =~= s.subrange(0, kept.len() as int));
        assert forall|k: int| kept.len() <= k < s.len() implies #[trigger] s[k] == c by {
            if k < rest.len() {
                assert(rest[k] == s[k]);
            }
        }
    } else {
        assert(s.subrange(0, s.len() as int) =~= s);
    }
}

/// A text comes before another one, or is the same, exactly if it is a beginning of it,
/// or has the smaller character at the first place at which the two differ.
pub proof fn law_order_of_texts(a: Seq<char>, b: Seq<char>)
    ensures
        text_le(a, b) <==> a.is_prefix_of(b) || exists|i: int|
            0 <= i < a.len() && i < b.len() && a.take(i) == b.take(i) && #[trigger] a[i] < b[i],
    decreases a.len(),
{
    if a.len() == 0 {
        assert(b.subrange(0, 0) =~= a);
    } else if b.len() > 0 {
        let x = a.skip(1);
        let y = b.skip(1);
        if a[0] == b[0] {
            law_order_of_texts(x, y);
            if text_le(x, y) {
                if x.is_prefix_of(y) {
                    assert(b.subrange(0, a.len() as int) =~= a) by {
                        assert forall|k: int| 0 <= k < a.len() implies b[k] == a[k] by {
                            if k > 0 {
                                assert(x[k - 1] == y.subrange(0, x.len() as int)[k - 1]);
                            }
                        }
                    }
                } else {
                    let i = choose|i: int|
                        0 <= i < x.len() && i < y.len() && x.take(i) == y.take(i) && #[trigger] x[i]
                            < y[i];
                    assert(a.take(i + 1) =~= b.take(i + 1)) by {
                        assert forall|k: int| 0 <= k < i + 1 implies a[k] == b[k] by {
                            if k > 0 {
                                assert(x.take(i)[k - 1] == y.take(i)[k - 1]);
                            }
                        }
                    }
                    assert(a[i + 1] < b[i + 1]);
                }
            } else {
                if a.is_prefix_of(b) {
                    assert(y.subrange(0, x.len() as int) =~= x) by {
                        assert forall|k: int| 0 <= k < x.len() implies y[k] == x[k] by {
                            assert(a[k + 1] == b.subrange(0, a.len() as int)[k + 1]);
                        }
                    }
                }
                assert forall|i: int|
                    0 <= i < a.len() && i < b.len() && a.take(i) == b.take(i) implies !(
                #[trigger] a[i] < b[i]) by {
                    if a[i] < b[i] {
                        assert(i > 0);
                        assert(x.take(i - 1) =~= y.take(i - 1)) by {
                            assert forall|k: int| 0 <= k < i - 1 implies x[k] == y[k] by {
                                assert(a.take(i)[k + 1] == b.take(i)[k + 1]);
                            }
                        }
                        assert(x[i - 1] < y[i - 1]);
                    }
                }
            }
        } else {
            if a[0] < b[0] {
                assert(a.take(0) =~= b.take(0));
            }
            if a.is_prefix_of(b) {
                assert(b.subrange(0, a.len() as int)[0] == a[0]);
            }
            assert forall|i: int|
                0 <= i < a.len() && i < b.len() && a.take(i) == b.take(i) && #[trigger] a[i]
                    < b[i] implies a[0] < b[0] by {
                if i > 0 {
                    assert(a.take(i)[0] == b.take(i)[0]);
                }
            }
        }
    }
}

/// In upper case a letter from `a` to `z` is the one 32 places before, and every other
/// character is itself.
pub proof fn law_upper_case(s: Seq<char>, i: int)
    requires
        0 <= i < s.len(),
    ensures
        ascii_uppercase(s).len() == s.len(),
        'a' <= s[i] <= 'z' ==> ascii_uppercase(s)[i] as int == s[i] as int - 32,
        !('a' <= s[i] <= 'z') ==> ascii_uppercase(s)[i] == s[i],
{
}

/// Texts are sorted exactly if none comes before one that stands in front of it.
pub proof fn law_sorted_texts(texts: Seq<Seq<char>>)
    ensures
        sorted_texts(texts) <==> forall|i: int, j: int|
            #![trigger texts[i], texts[j]]
            0 <= i && i < j && j < texts.len() ==> text_le(texts[i], texts[j]),
        sorted_texts(Seq::empty()),
{
    assert forall|i: int| 0 <= i < texts.len() implies text_le(#[trigger] texts[i], texts[i]) by {
        lemma_text_le_total(texts[i], texts[i]);
    }
}

} // verus!
