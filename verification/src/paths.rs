//! Paths as texts, read as Unix reads them: the components of a path, its file
//! name and extension, and the rest of a path below another one.

use crate::text;
use crate::text::{begins_with, chars_of, join_range, same_text, split, text_range};
use vstd::prelude::*;

verus! {

/// The pieces of a path between slashes.
pub open spec fn segments(path: Seq<char>) -> Seq<Seq<char>> {
    text::split_text(path, "/"@)
}

/// A piece that counts as a component: empty pieces and single dots do not.
pub open spec fn significant(segment: Seq<char>) -> bool {
    segment.len() > 0 && segment != "."@
}

pub open spec fn significant_segments(parts: Seq<Seq<char>>) -> Seq<Seq<char>>
    decreases parts.len(),
{
    if parts.len() == 0 {
        Seq::empty()
    } else if significant(parts.last()) {
        significant_segments(parts.drop_last()).push(parts.last())
    } else {
        significant_segments(parts.drop_last())
    }
}

/// The component in front of the names: the root of an absolute path, or the
/// single dot that a relative path may begin with.
pub open spec fn lead(path: Seq<char>) -> Seq<Seq<char>> {
    if text::starts_with(path, "/"@) {
        seq!["/"@]
    } else if path == "."@ || text::starts_with(path, "./"@) {
        seq!["."@]
    } else {
        Seq::empty()
    }
}

/// The components of a path.
pub open spec fn components_of(path: Seq<char>) -> Seq<Seq<char>> {
    lead(path) + significant_segments(segments(path))
}

/// The last component of a path, if it is a name.
pub open spec fn file_name_of(path: Seq<char>) -> Option<Seq<char>> {
    let parts = components_of(path);
    if parts.len() == 0 || parts.last() == "/"@ || parts.last() == "."@ || parts.last() == ".."@ {
        None
    } else {
        Some(parts.last())
    }
}

/// The last position of a character, or -1.
pub open spec fn last_position(s: Seq<char>, c: char) -> int
    decreases s.len(),
{
    if s.len() == 0 {
        -1
    } else if s.last() == c {
        s.len() - 1
    } else {
        last_position(s.drop_last(), c)
    }
}

/// What follows the last dot of a file name, if that dot is not its first
/// character.
pub open spec fn extension_of(path: Seq<char>) -> Option<Seq<char>> {
    match file_name_of(path) {
        Some(name) => if last_position(name, '.') > 0 {
            Some(name.skip(last_position(name, '.') + 1))
        } else {
            None
        },
        None => None,
    }
}

/// The components of a path.
pub fn components(path: &str) -> (r: Vec<String>)
    ensures
        r.deep_view() == components_of(path@),
{
    proof {
        reveal_strlit("/");
    }
    let mut out: Vec<String> = Vec::new();
    if begins_with(path, "/") {
        out.push("/".to_string());
    } else if same_text(path, ".") || begins_with(path, "./") {
        out.push(".".to_string());
    }
    assert(out.deep_view() == lead(path@));
    let parts = split(path, "/");
    let ghost all = parts.deep_view();
    let mut i: usize = 0;
    assert(out.deep_view() == lead(path@) + significant_segments(all.take(0)));
    while i < parts.len()
        invariant
            i <= parts@.len(),
            all == parts.deep_view(),
            out.deep_view() == lead(path@) + significant_segments(all.take(i as int)),
        decreases parts@.len() - i,
    {
        let ghost before = out.deep_view();
        let ghost upto = all.take(i as int + 1);
        proof {
            assert(upto.drop_last() == all.take(i as int));
            assert(upto.last() == parts@[i as int]@);
        }
        if is_significant(parts[i].as_str()) {
            let copy = parts[i].as_str().to_string();
            out.push(copy);
            assert(out.deep_view() == before.push(parts@[i as int]@));
            assert(lead(path@) + significant_segments(all.take(i as int)).push(parts@[i as int]@)
                == before.push(parts@[i as int]@));
        }
        i += 1;
    }
    assert(all.take(i as int) == all);
    out
}

fn is_significant(segment: &str) -> (r: bool)
    ensures
        r == significant(segment@),
{
    !segment.is_empty() && !same_text(segment, ".")
}

/// The last component of a path, if it is a name.
pub fn file_name(path: &str) -> (r: Option<String>)
    ensures
        r.deep_view() == file_name_of(path@),
{
    let mut parts = components(path);
    match parts.pop() {
        Some(last) => {
            assert(components_of(path@).last() == last@);
            if same_text(last.as_str(), "/") || same_text(last.as_str(), ".") || same_text(
                last.as_str(),
                "..",
            ) {
                None
            } else {
                Some(last)
            }
        },
        None => None,
    }
}

/// The extension of the file name of a path.
pub fn extension(path: &str) -> (r: Option<String>)
    ensures
        r.deep_view() == extension_of(path@),
{
    match file_name(path) {
        Some(name) => {
            let chars = chars_of(name.as_str());
            let mut end: usize = chars.len();
            assert(chars@.take(end as int) == chars@);
            while end > 0 && chars[end - 1] != '.'
                invariant
                    end <= chars@.len(),
                    last_position(chars@, '.') == last_position(chars@.take(end as int), '.'),
                decreases end,
            {
                assert(chars@.take(end as int).drop_last() == chars@.take(end - 1));
                end -= 1;
            }
            if end > 1 {
                assert(chars@.skip(end as int) == chars@.subrange(end as int, chars@.len() as int));
                Some(text_range(&chars, end, chars.len()))
            } else {
                None
            }
        },
        None => None,
    }
}

/// Position after the next `n` significant pieces, from position `at` on.
pub open spec fn after_segments(parts: Seq<Seq<char>>, at: int, n: int) -> int
    decreases parts.len() - at,
{
    if n <= 0 || at >= parts.len() {
        at
    } else if significant(parts[at]) {
        after_segments(parts, at + 1, n - 1)
    } else {
        after_segments(parts, at + 1, n)
    }
}

/// `parts` without the pieces at its start that are no components.
pub open spec fn trim_front(parts: Seq<Seq<char>>) -> Seq<Seq<char>>
    decreases parts.len(),
{
    if parts.len() > 0 && !significant(parts[0]) {
        trim_front(parts.skip(1))
    } else {
        parts
    }
}

/// `parts` without the pieces at its end that are no components.
pub open spec fn trim_back(parts: Seq<Seq<char>>) -> Seq<Seq<char>>
    decreases parts.len(),
{
    if parts.len() > 0 && !significant(parts.last()) {
        trim_back(parts.drop_last())
    } else {
        parts
    }
}

/// A path after its first `n` components. With `n` zero the path keeps its
/// beginning as it is.
pub open spec fn after_components(path: Seq<char>, n: int) -> Seq<char> {
    let parts = segments(path);
    if n <= 0 {
        let text = text::join_texts(trim_back(parts), "/"@);
        if text.len() == 0 && lead(path).len() > 0 {
            lead(path)[0]
        } else {
            text
        }
    } else {
        let at = after_segments(parts, lead(path).len() as int, n - lead(path).len());
        text::join_texts(trim_back(trim_front(parts.skip(at))), "/"@)
    }
}

/// The rest of `path` below `base`, if the components of `base` are the first
/// components of `path`.
pub open spec fn path_below(path: Seq<char>, base: Seq<char>) -> Option<Seq<char>> {
    if components_of(base).is_prefix_of(components_of(path)) {
        Some(after_components(path, components_of(base).len() as int))
    } else {
        None
    }
}

/// Whether the texts of the first list are the first texts of the second.
fn is_prefix(first: &Vec<String>, second: &Vec<String>) -> (r: bool)
    ensures
        r == first.deep_view().is_prefix_of(second.deep_view()),
{
    if first.len() > second.len() {
        return false;
    }
    let mut i: usize = 0;
    while i < first.len()
        invariant
            i <= first@.len() <= second@.len(),
            forall|j: int| 0 <= j < i ==> first.deep_view()[j] == second.deep_view()[j],
        decreases first@.len() - i,
    {
        if !same_text(first[i].as_str(), second[i].as_str()) {
            assert(first.deep_view()[i as int] != second.deep_view().take(
                first@.len() as int,
            )[i as int]);
            return false;
        }
        i += 1;
    }
    assert(first.deep_view() == second.deep_view().subrange(0, first@.len() as int));
    true
}

/// The end of `parts[from..]` once the pieces at its end that are no components
/// are left out.
fn end_of_segments(parts: &Vec<String>, from: usize) -> (r: usize)
    requires
        from <= parts@.len(),
    ensures
        from <= r <= parts@.len(),
        trim_back(parts.deep_view().skip(from as int)) == parts.deep_view().subrange(
            from as int,
            r as int,
        ),
{
    let ghost all = parts.deep_view();
    let mut end: usize = parts.len();
    assert(all.skip(from as int) == all.subrange(from as int, end as int));
    while end > from && !is_significant(parts[end - 1].as_str())
        invariant
            all == parts.deep_view(),
            from <= end <= parts@.len(),
            trim_back(all.skip(from as int)) == trim_back(all.subrange(from as int, end as int)),
        decreases end,
    {
        assert(all.subrange(from as int, end as int).drop_last() == all.subrange(
            from as int,
            end - 1,
        ));
        end -= 1;
    }
    end
}

/// The rest of `path` below `base`, if `base` leads to it.
pub fn strip_path_prefix(path: &str, base: &str) -> (r: Option<String>)
    ensures
        r.deep_view() == path_below(path@, base@),
{
    let own = components(path);
    let upper = components(base);
    if !is_prefix(&upper, &own) {
        return None;
    }
    proof {
        reveal_strlit("/");
    }
    let parts = split(path, "/");
    let ghost all = parts.deep_view();
    let leading: usize = if begins_with(path, "/") || same_text(path, ".") || begins_with(
        path,
        "./",
    ) {
        1
    } else {
        0
    };
    assert(leading == lead(path@).len());
    if upper.len() == 0 {
        let end = end_of_segments(&parts, 0);
        assert(all.skip(0) == all);
        let whole = join_range(&parts, 0, end, "/");
        if whole.as_str().is_empty() && leading == 1 {
            if begins_with(path, "/") {
                return Some("/".to_string());
            }
            return Some(".".to_string());
        }
        return Some(whole);
    }
    let mut at: usize = leading;
    let mut left: usize = if upper.len() >= leading {
        upper.len() - leading
    } else {
        0
    };
    let ghost target = after_segments(
        all,
        leading as int,
        components_of(base@).len() - lead(path@).len(),
    );
    while left > 0 && at < parts.len()
        invariant
            all == parts.deep_view(),
            leading <= at <= parts@.len() || at == leading,
            after_segments(all, at as int, left as int) == target,
        decreases parts@.len() - at,
    {
        if is_significant(parts[at].as_str()) {
            left -= 1;
        }
        at += 1;
    }
    assert(at == target);
    if at > parts.len() {
        at = parts.len();
    }
    assert(all.skip(target) == all.skip(at as int));
    let mut front: usize = at;
    while front < parts.len() && !is_significant(parts[front].as_str())
        invariant
            all == parts.deep_view(),
            at <= front <= parts@.len(),
            trim_front(all.skip(at as int)) == trim_front(all.skip(front as int)),
        decreases parts@.len() - front,
    {
        assert(all.skip(front as int).skip(1) == all.skip(front + 1));
        front += 1;
    }
    let end = end_of_segments(&parts, front);
    Some(join_range(&parts, front, end, "/"))
}

// ---------------------------------------------------------------------------
// Laws
// ---------------------------------------------------------------------------

/// No piece holds a slash.
pub open spec fn no_slashes(parts: Seq<Seq<char>>) -> bool {
    forall|i: int| 0 <= i < parts.len() ==> !(#[trigger] parts[i]).contains('/')
}

proof fn lemma_slash_at(s: Seq<char>, i: int)
    ensures
        text::occurs_at(s, "/"@, i) <==> 0 <= i < s.len() && s[i] == '/',
{
    reveal_strlit("/");
    if 0 <= i < s.len() {
        assert(s.subrange(i, i + 1)[0] == s[i]);
        if s[i] == '/' {
            assert(s.subrange(i, i + 1) =~= "/"@);
        }
    }
}

proof fn lemma_segments_hold_no_slash(path: Seq<char>)
    ensures
        no_slashes(segments(path)),
    decreases path.len(),
{
    reveal_strlit("/");
    text::lemma_find_from(path, "/"@, 0);
    match text::find_from(path, "/"@, 0) {
        Some(i) => {
            let first = path.take(i);
            assert(!first.contains('/')) by {
                if first.contains('/') {
                    let k = choose|k: int| 0 <= k < first.len() && first[k] == '/';
                    lemma_slash_at(path, k);
                }
            }
            lemma_segments_hold_no_slash(path.skip(i + 1));
        },
        None => {
            assert(!path.contains('/')) by {
                if path.contains('/') {
                    let k = choose|k: int| 0 <= k < path.len() && path[k] == '/';
                    lemma_slash_at(path, k);
                }
            }
        },
    }
}

proof fn lemma_single_segment(name: Seq<char>)
    requires
        !name.contains('/'),
    ensures
        segments(name) == seq![name],
{
    text::lemma_find_from(name, "/"@, 0);
    if let Some(i) = text::find_from(name, "/"@, 0) {
        lemma_slash_at(name, i);
        assert(name.contains('/'));
    }
}

proof fn lemma_find_slash(s: Seq<char>, from: int, at: int)
    requires
        0 <= from <= at < s.len(),
        s[at] == '/',
        forall|k: int| from <= k < at ==> s[k] != '/',
    ensures
        text::find_from(s, "/"@, from) == Some(at),
    decreases at - from,
{
    reveal_strlit("/");
    lemma_slash_at(s, from);
    if from < at {
        lemma_find_slash(s, from + 1, at);
    }
}

proof fn lemma_segment_in_front(first: Seq<char>, rest: Seq<char>)
    requires
        !first.contains('/'),
    ensures
        segments(first + "/"@ + rest) == seq![first] + segments(rest),
{
    reveal_strlit("/");
    let joined = first + "/"@ + rest;
    let at = first.len() as int;
    assert forall|k: int| 0 <= k < at implies joined[k] != '/' by {
        assert(joined[k] == first[k]);
    }
    lemma_find_slash(joined, 0, at);
    assert(joined.take(at) =~= first);
    assert(joined.skip(at + 1) =~= rest);
}

proof fn lemma_segments_of_joined(parts: Seq<Seq<char>>)
    requires
        parts.len() > 0,
        no_slashes(parts),
    ensures
        segments(text::join_texts(parts, "/"@)) == parts,
    decreases parts.len(),
{
    let first = parts[0];
    if parts.len() == 1 {
        lemma_single_segment(first);
        assert(parts =~= seq![first]);
    } else {
        let rest = parts.skip(1);
        assert(no_slashes(rest));
        lemma_segments_of_joined(rest);
        text::lemma_join_front(first, rest, "/"@);
        lemma_segment_in_front(first, text::join_texts(rest, "/"@));
        assert(parts =~= seq![first] + rest);
    }
}

proof fn lemma_first_segment(parts: Seq<Seq<char>>)
    requires
        parts.len() > 0,
    ensures
        significant_segments(parts) == (if significant(parts[0]) {
            seq![parts[0]]
        } else {
            Seq::empty()
        }) + significant_segments(parts.skip(1)),
    decreases parts.len(),
{
    if parts.len() == 1 {
        assert(parts.skip(1) =~= Seq::empty());
        assert(parts.drop_last() =~= Seq::empty());
        assert(significant_segments(parts.drop_last()) =~= Seq::empty());
        assert(significant_segments(parts.skip(1)) =~= Seq::empty());
        assert(significant_segments(parts) =~= (if significant(parts[0]) {
            seq![parts[0]]
        } else {
            Seq::empty()
        }));
    } else {
        let shorter = parts.drop_last();
        lemma_first_segment(shorter);
        assert(shorter.skip(1) =~= parts.skip(1).drop_last());
        assert(parts.skip(1).last() == parts.last());
        assert(significant_segments(parts) =~= (if significant(parts[0]) {
            seq![parts[0]]
        } else {
            Seq::empty()
        }) + significant_segments(parts.skip(1)));
    }
}

proof fn lemma_after_segments(parts: Seq<Seq<char>>, at: int, n: int)
    requires
        0 <= at <= parts.len(),
        0 <= n <= significant_segments(parts.skip(at)).len(),
    ensures
        at <= after_segments(parts, at, n) <= parts.len(),
        significant_segments(parts.skip(after_segments(parts, at, n))) == significant_segments(
            parts.skip(at),
        ).skip(n),
    decreases parts.len() - at,
{
    let here = significant_segments(parts.skip(at));
    if n == 0 {
        assert(here.skip(0) =~= here);
    } else if at < parts.len() {
        lemma_first_segment(parts.skip(at));
        assert(parts.skip(at).skip(1) =~= parts.skip(at + 1));
        assert(parts.skip(at)[0] == parts[at]);
        let there = significant_segments(parts.skip(at + 1));
        if significant(parts[at]) {
            assert(here.skip(n) =~= there.skip(n - 1));
            lemma_after_segments(parts, at + 1, n - 1);
        } else {
            assert(here =~= there);
            lemma_after_segments(parts, at + 1, n);
        }
    } else {
        assert(parts.skip(at) =~= Seq::empty());
        assert(here.len() == 0);
    }
}

proof fn lemma_trim_front(parts: Seq<Seq<char>>)
    requires
        no_slashes(parts),
    ensures
        no_slashes(trim_front(parts)),
        significant_segments(trim_front(parts)) == significant_segments(parts),
        trim_front(parts).len() > 0 ==> significant(trim_front(parts)[0]),
    decreases parts.len(),
{
    if parts.len() > 0 && !significant(parts[0]) {
        lemma_first_segment(parts);
        assert(Seq::<Seq<char>>::empty() + significant_segments(parts.skip(1))
            =~= significant_segments(parts.skip(1)));
        lemma_trim_front(parts.skip(1));
    }
}

proof fn lemma_trim_back(parts: Seq<Seq<char>>)
    requires
        no_slashes(parts),
        parts.len() > 0 ==> significant(parts[0]),
    ensures
        no_slashes(trim_back(parts)),
        significant_segments(trim_back(parts)) == significant_segments(parts),
        trim_back(parts).len() > 0 <==> parts.len() > 0,
        parts.len() > 0 ==> trim_back(parts)[0] == parts[0],
    decreases parts.len(),
{
    if parts.len() > 0 && !significant(parts.last()) {
        lemma_trim_back(parts.drop_last());
    }
}

/// A path that begins with a name has no component in front of the names.
proof fn lemma_no_lead(parts: Seq<Seq<char>>)
    requires
        no_slashes(parts),
        parts.len() > 0 ==> significant(parts[0]),
    ensures
        lead(text::join_texts(parts, "/"@)) == Seq::<Seq<char>>::empty(),
{
    reveal_strlit("/");
    reveal_strlit(".");
    reveal_strlit("./");
    let joined = text::join_texts(parts, "/"@);
    lemma_slash_at(joined, 0);
    if parts.len() > 0 {
        let first = parts[0];
        if parts.len() > 1 {
            assert(parts =~= seq![first] + parts.skip(1));
            text::lemma_join_front(first, parts.skip(1), "/"@);
        }
        assert(joined[0] == first[0]);
        assert(first[0] != '/') by {
            if first[0] == '/' {
                assert(first.contains('/'));
            }
        }
        if joined == "."@ || text::starts_with(joined, "./"@) {
            if text::starts_with(joined, "./"@) {
                assert(joined.subrange(0, 2)[0] == joined[0]);
                assert(joined.subrange(0, 2)[1] == joined[1]);
            }
            if first.len() > 1 {
                assert(joined[1] == first[1]);
                assert(first.contains('/'));
            }
            assert(first =~= "."@);
        }
    }
}

/// What is left of a path below another one has the components that follow the
/// components of the other one.
pub proof fn law_rest_has_the_later_components(path: Seq<char>, base: Seq<char>)
    requires
        components_of(base).len() > 0,
        path_below(path, base) is Some,
    ensures
        components_of(path_below(path, base)->0) == components_of(path).skip(
            components_of(base).len() as int,
        ),
{
    reveal_strlit("/");
    let parts = segments(path);
    let n = components_of(base).len() as int;
    let l = lead(path).len() as int;
    let names = significant_segments(parts);
    lemma_segments_hold_no_slash(path);
    lemma_lead_piece(path);
    assert(significant_segments(parts.skip(l)) == names) by {
        if l == 1 {
            lemma_first_segment(parts);
            assert(Seq::<Seq<char>>::empty() + significant_segments(parts.skip(1))
                =~= significant_segments(parts.skip(1)));
        } else {
            assert(parts.skip(0) =~= parts);
        }
    }
    lemma_after_segments(parts, l, n - l);
    let at = after_segments(parts, l, n - l);
    let later = parts.skip(at);
    lemma_trim_front(later);
    let front = trim_front(later);
    lemma_trim_back(front);
    let kept = trim_back(front);
    let rest = text::join_texts(kept, "/"@);
    lemma_no_lead(kept);
    assert(components_of(path).skip(n) =~= names.skip(n - l));
    if kept.len() > 0 {
        lemma_segments_of_joined(kept);
    } else {
        text::lemma_find_from(rest, "/"@, 0);
        assert(segments(rest) =~= seq![rest]);
        lemma_first_segment(segments(rest));
        assert(segments(rest).skip(1) =~= kept);
        assert(Seq::<Seq<char>>::empty() + significant_segments(kept) =~= significant_segments(
            kept,
        ));
    }
    assert(components_of(rest) =~= significant_segments(kept));
}

/// The component in front of the names stands for a piece that is none of them.
proof fn lemma_lead_piece(path: Seq<char>)
    ensures
        segments(path).len() >= 1,
        lead(path).len() <= 1,
        lead(path).len() == 1 ==> !significant(segments(path)[0]),
{
    reveal_strlit("/");
    reveal_strlit(".");
    reveal_strlit("./");
    text::lemma_split_nonempty(path, "/"@);
    text::lemma_find_from(path, "/"@, 0);
    lemma_slash_at(path, 0);
    if text::starts_with(path, "./"@) {
        assert(path.subrange(0, 2)[0] == path[0]);
        assert(path.subrange(0, 2)[1] == path[1]);
        lemma_slash_at(path, 1);
        let i = text::find_from(path, "/"@, 0)->0;
        lemma_slash_at(path, i);
        assert(i == 1);
        assert(path.take(1) =~= "."@);
    } else if path == "."@ {
        let found = text::find_from(path, "/"@, 0);
        if found is Some {
            lemma_slash_at(path, found->0);
        }
    }
}

proof fn lemma_names_are_significant(names: Seq<Seq<char>>)
    requires
        forall|i: int| 0 <= i < names.len() ==> significant(#[trigger] names[i]),
    ensures
        significant_segments(names) == names,
    decreases names.len(),
{
    if names.len() > 0 {
        lemma_names_are_significant(names.drop_last());
        assert(significant(names[names.len() - 1]));
        assert(names.drop_last().push(names.last()) =~= names);
    }
}

/// The names that make up a path, with slashes between them, are its components, behind
/// the root if the path is absolute. The last one is the name of the file.
pub proof fn law_names_are_components(names: Seq<Seq<char>>)
    requires
        names.len() > 0,
        forall|i: int|
            0 <= i < names.len() ==> (#[trigger] names[i]).len() > 0 && names[i] != "."@
                && !names[i].contains('/'),
    ensures
        components_of(text::join_texts(names, "/"@)) == names,
        components_of("/"@ + text::join_texts(names, "/"@)) == seq!["/"@] + names,
        names.last() != ".."@ ==> file_name_of(text::join_texts(names, "/"@)) == Some(names.last()),
        names.last() != ".."@ ==> file_name_of("/"@ + text::join_texts(names, "/"@)) == Some(
            names.last(),
        ),
{
    reveal_strlit("/");
    let joined = text::join_texts(names, "/"@);
    assert(no_slashes(names));
    assert forall|i: int| 0 <= i < names.len() implies significant(#[trigger] names[i]) by {
        assert(names[i].len() > 0);
    }
    lemma_segments_of_joined(names);
    lemma_names_are_significant(names);
    lemma_no_lead(names);
    assert(components_of(joined) =~= names);
    let none = Seq::<char>::empty();
    lemma_segment_in_front(none, joined);
    let whole = "/"@ + joined;
    assert(none + "/"@ + joined =~= whole);
    assert(segments(whole) =~= seq![none] + names);
    lemma_first_segment(segments(whole));
    assert(segments(whole).skip(1) =~= names);
    assert(Seq::<Seq<char>>::empty() + names =~= names);
    lemma_slash_at(whole, 0);
    assert(components_of(whole) =~= seq!["/"@] + names);
    let last = names.last();
    assert(names[names.len() - 1] == last);
    assert(last != "/"@) by {
        if last == "/"@ {
            assert(last[0] == '/');
        }
    }
}

/// The extension of a file is what follows the last dot of its name. A name without a
/// dot has none, and neither has one whose only dot is its first character.
pub proof fn law_extensions_follow_the_last_dot(
    path: Seq<char>,
    stem: Seq<char>,
    extension: Seq<char>,
)
    requires
        !extension.contains('.'),
    ensures
        file_name_of(path) == Some(stem.push('.') + extension) ==> extension_of(path) == if stem.len()
            > 0 {
            Some(extension)
        } else {
            None
        },
        file_name_of(path) == Some(extension) ==> extension_of(path) is None,
{
    let name = stem.push('.') + extension;
    lemma_last_dot(name, stem.len() as int);
    assert(name.skip(stem.len() + 1 as int) =~= extension);
    lemma_no_dot(extension);
}

proof fn lemma_last_dot(name: Seq<char>, at: int)
    requires
        0 <= at < name.len(),
        name[at] == '.',
        forall|k: int| at < k < name.len() ==> name[k] != '.',
    ensures
        last_position(name, '.') == at,
    decreases name.len(),
{
    if at < name.len() - 1 {
        lemma_last_dot(name.drop_last(), at);
    }
}

proof fn lemma_no_dot(name: Seq<char>)
    requires
        !name.contains('.'),
    ensures
        last_position(name, '.') == -1,
    decreases name.len(),
{
    if name.len() > 0 {
        assert(name.contains(name.last()));
        assert(forall|k: int| 0 <= k < name.len() - 1 ==> name.drop_last()[k] == name[k]);
        lemma_no_dot(name.drop_last());
    }
}

/// A path lies below another one exactly if the components of the other one are the
/// first of its own. What is left of it are the names that follow, with slashes between
/// them, of a relative path and of an absolute one.
pub proof fn law_what_is_below(names: Seq<Seq<char>>, k: int, path: Seq<char>, base: Seq<char>)
    requires
        0 < k <= names.len(),
        forall|i: int|
            0 <= i < names.len() ==> (#[trigger] names[i]).len() > 0 && names[i] != "."@
                && !names[i].contains('/'),
    ensures
        path_below(path, base) is Some <==> components_of(base).is_prefix_of(components_of(path)),
        path_below(
            text::join_texts(names, "/"@),
            text::join_texts(names.take(k), "/"@),
        ) == Some(text::join_texts(names.skip(k), "/"@)),
        path_below(
            "/"@ + text::join_texts(names, "/"@),
            "/"@ + text::join_texts(names.take(k), "/"@),
        ) == Some(text::join_texts(names.skip(k), "/"@)),
{
    reveal_strlit("/");
    let first = names.take(k);
    let rest = names.skip(k);
    assert forall|i: int| 0 <= i < first.len() implies (#[trigger] first[i]).len() > 0 && first[i]
        != "."@ && !first[i].contains('/') by {
        assert(first[i] == names[i]);
    }
    law_names_are_components(names);
    law_names_are_components(first);
    assert(names.subrange(0, k) =~= first);
    assert((seq!["/"@] + names).subrange(0, k + 1) =~= seq!["/"@] + first);
    let joined = text::join_texts(names, "/"@);
    assert(no_slashes(names));
    assert forall|i: int| 0 <= i < names.len() implies significant(#[trigger] names[i]) by {
        assert(names[i].len() > 0);
    }
    assert forall|i: int| 0 <= i < rest.len() implies significant(#[trigger] rest[i]) by {
        assert(rest[i] == names[k + i]);
    }
    lemma_segments_of_joined(names);
    lemma_no_lead(names);
    lemma_after_names(names, 0, k);
    lemma_nothing_to_trim(rest);
    let none = Seq::<char>::empty();
    let whole = "/"@ + joined;
    lemma_segment_in_front(none, joined);
    assert(none + "/"@ + joined =~= whole);
    let parts = segments(whole);
    assert(parts =~= seq![none] + names);
    lemma_slash_at(whole, 0);
    assert forall|i: int| 1 <= i < parts.len() implies significant(#[trigger] parts[i]) by {
        assert(parts[i] == names[i - 1]);
    }
    lemma_after_names(parts, 1, k);
    assert(parts.skip(k + 1) =~= rest);
}

proof fn lemma_after_names(parts: Seq<Seq<char>>, at: int, n: int)
    requires
        0 <= at,
        0 <= n,
        at + n <= parts.len(),
        forall|i: int| at <= i < parts.len() ==> significant(#[trigger] parts[i]),
    ensures
        after_segments(parts, at, n) == at + n,
    decreases n,
{
    if n > 0 {
        assert(significant(parts[at]));
        lemma_after_names(parts, at + 1, n - 1);
    }
}

proof fn lemma_nothing_to_trim(parts: Seq<Seq<char>>)
    requires
        forall|i: int| 0 <= i < parts.len() ==> significant(#[trigger] parts[i]),
    ensures
        trim_back(trim_front(parts)) == parts,
{
    if parts.len() > 0 {
        assert(significant(parts[0]));
        assert(significant(parts[parts.len() - 1]));
    }
}

} // verus!
