//! The name that a path ends on. Segments are separated by `/`.

use crate::text::to_chars;
use vstd::prelude::*;

verus! {

/// Where the last segment of `path` begins: after its last `/`, or at 0.
pub open spec fn last_segment_start(path: Seq<char>) -> int
    decreases path.len(),
{
    if path.len() == 0 {
        0
    } else if path.last() == '/' {
        path.len() as int
    } else {
        last_segment_start(path.drop_last())
    }
}

/// The segment that `path` ends on, once every `/` and every segment `.` at
/// its end is dropped; `None` if nothing is left then.
pub open spec fn last_named_segment(path: Seq<char>) -> Option<Seq<char>>
    decreases path.len(),
{
    if path.len() == 0 {
        None
    } else if path.last() == '/' {
        last_named_segment(path.drop_last())
    } else if path.last() == '.' && (path.len() == 1 || path[path.len() - 2] == '/') {
        last_named_segment(path.drop_last())
    } else {
        Some(path.skip(last_segment_start(path)))
    }
}

/// The name of the file or directory that `path` leads to: its last named
/// segment, unless that is `..`.
pub open spec fn file_name_of(path: Seq<char>) -> Option<Seq<char>> {
    match last_named_segment(path) {
        Some(segment) => if segment == seq!['.', '.'] {
            None
        } else {
            Some(segment)
        },
        None => None,
    }
}

/// The name to show for a directory: that of [`file_name_of`], and `.` for
/// a path that has none, such as the root or the empty path.
pub open spec fn display_dir(path: Seq<char>) -> Seq<char> {
    match file_name_of(path) {
        Some(name) => name,
        None => "."@,
    }
}

/// A path that ends on a segment of its own has that segment for a name:
/// `name` is not empty, holds no `/`, is neither `.` nor `..`, and `path` is
/// `name` alone or ends in `/` and `name`.
pub proof fn lemma_file_name_of_plain_path(path: Seq<char>, name: Seq<char>)
    requires
        name.len() > 0,
        !name.contains('/'),
        name != seq!['.'],
        name != seq!['.', '.'],
        name.is_suffix_of(path),
        path.len() > name.len() ==> path[path.len() - name.len() - 1] == '/',
    ensures
        file_name_of(path) == Some(name),
        display_dir(path) == name,
{
    let start = path.len() - name.len();
    assert(path.skip(start) =~= name);
    assert(forall|i: int| start <= i < path.len() ==> path[i] == name[i - start]);
    lemma_segment_start(path, start, path.len() as int);
    assert(path.take(path.len() as int) =~= path);
    if path.last() == '.' && (path.len() == 1 || path[path.len() - 2] == '/') {
        // A name that ended so would be `.` itself.
        assert(name =~= seq!['.']);
    }
}

/// A `/` at the end of a path changes nothing, nor does a segment `.` there.
pub proof fn lemma_file_name_ignores_trailing(path: Seq<char>)
    ensures
        file_name_of(path.push('/')) == file_name_of(path),
        file_name_of(path.push('/').push('.')) == file_name_of(path),
{
    let slashed = path.push('/');
    let dotted = slashed.push('.');
    assert(slashed.drop_last() =~= path);
    assert(dotted.drop_last() =~= slashed);
    assert(dotted[dotted.len() - 2] == '/');
}

/// A path that ends on the segment `..` has no name.
pub proof fn lemma_parent_has_no_name(path: Seq<char>)
    requires
        path.len() == 0 || path.last() == '/',
    ensures
        file_name_of(path + seq!['.', '.']) is None,
{
    let whole = path + seq!['.', '.'];
    assert(whole.last() == '.');
    assert(whole[whole.len() - 2] == '.');
    assert(forall|i: int| path.len() <= i < whole.len() ==> whole[i] != '/');
    lemma_segment_start(whole, path.len() as int, whole.len() as int);
    assert(whole.take(whole.len() as int) =~= whole);
    assert(whole.skip(path.len() as int) =~= seq!['.', '.']);
}

/// The character at `i` is a `/`, or a `.` that begins a segment.
pub open spec fn names_nothing_at(path: Seq<char>, i: int) -> bool {
    path[i] == '/' || (path[i] == '.' && (i == 0 || path[i - 1] == '/'))
}

/// A path made of nothing but `/` and segments `.` has no name, and shows
/// as `.`: so the empty path, the root and `.` itself.
pub proof fn lemma_unnamed_path(path: Seq<char>)
    requires
        forall|i: int| 0 <= i < path.len() ==> names_nothing_at(path, i),
    ensures
        file_name_of(path) is None,
        display_dir(path) == "."@,
    decreases path.len(),
{
    if path.len() > 0 {
        assert(names_nothing_at(path, path.len() - 1));
        assert forall|i: int| 0 <= i < path.len() - 1 implies names_nothing_at(
            path.drop_last(),
            i,
        ) by {
            assert(names_nothing_at(path, i));
        }
        lemma_unnamed_path(path.drop_last());
    }
}

/// Where no `/` stands from `start` up to `end`, the last segment of the
/// first `end` characters begins where that of the first `start` does.
proof fn lemma_segment_start(path: Seq<char>, start: int, end: int)
    requires
        0 <= start <= end <= path.len(),
        forall|i: int| start <= i < end ==> path[i] != '/',
        start == 0 || path[start - 1] == '/',
    ensures
        last_segment_start(path.take(end)) == start,
    decreases end - start,
{
    if start < end {
        assert(path.take(end).drop_last() =~= path.take(end - 1));
        lemma_segment_start(path, start, end - 1);
    }
}

/// The name of the file or directory that `path` leads to, if it has one.
pub fn file_name(path: &str) -> (r: Option<String>)
    ensures
        r.deep_view() == file_name_of(path@),
{
    let chars = to_chars(path);
    let mut end: usize = chars.len();
    assert(path@.take(end as int) =~= path@);
    loop
        invariant_except_break
            chars@ == path@,
            end <= chars@.len(),
            last_named_segment(path@) == last_named_segment(path@.take(end as int)),
        ensures
            chars@ == path@,
            0 < end <= chars@.len(),
            last_named_segment(path@) == Some(
                path@.take(end as int).skip(last_segment_start(path@.take(end as int))),
            ),
        decreases end,
    {
        if end == 0 {
            return None;
        }
        let c = chars[end - 1];
        let skipped = c == '/' || (c == '.' && (end == 1 || chars[end - 2] == '/'));
        if !skipped {
            break;
        }
        assert(path@.take(end as int).drop_last() =~= path@.take(end - 1));
        end = end - 1;
    }
    let mut start: usize = end;
    while start > 0 && chars[start - 1] != '/'
        invariant
            chars@ == path@,
            start <= end <= chars@.len(),
            forall|i: int| start <= i < end ==> path@[i] != '/',
        decreases start,
    {
        start = start - 1;
    }
    proof {
        lemma_segment_start(path@, start as int, end as int);
        assert(path@.take(end as int).skip(start as int) =~= path@.subrange(
            start as int,
            end as int,
        ));
    }
    if end - start == 2 && chars[start] == '.' && chars[start + 1] == '.' {
        assert(path@.subrange(start as int, end as int) =~= seq!['.', '.']);
        None
    } else {
        Some(String::from_str(path.substring_char(start, end)))
    }
}

} // verus!
