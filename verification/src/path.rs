//! The grammar of paths: components separated by `/`, the file name as the
//! last component that names something, and the extension as what follows the
//! last `.` of the file name.

use vstd::prelude::*;

verus! {

/// The character that separates the components of a path.
pub const SEPARATOR: char = '/';

/// The character that introduces an extension.
pub const DOT: char = '.';

/// True when `path` ends in a component that is just `.`.
pub open spec fn ends_in_dot_component(path: Seq<char>) -> bool {
    &&& path.len() > 0
    &&& path.last() == DOT
    &&& (path.len() == 1 || path[path.len() - 2] == SEPARATOR)
}

/// The length that is left of `path` once trailing separators and trailing
/// `.` components are dropped. Neither of them names anything: `data/` and
/// `data/.` name what `data` names.
pub open spec fn trimmed_len(path: Seq<char>) -> nat
    decreases path.len(),
{
    if path.len() == 0 {
        0
    } else if path.last() == SEPARATOR || ends_in_dot_component(path) {
        trimmed_len(path.drop_last())
    } else {
        path.len()
    }
}

/// The part of `s` behind the last occurrence of `c`, or all of `s` where `c`
/// does not occur.
pub open spec fn after_last(s: Seq<char>, c: char) -> Seq<char> {
    match s.index_of_last(c) {
        Some(i) => s.skip(i + 1),
        None => s,
    }
}

/// The two characters of the component that names the parent directory.
pub open spec fn parent_component() -> Seq<char> {
    seq![DOT, DOT]
}

/// The file name of `path`: its last component, trailing separators and `.`
/// components aside. A path that ends in the root, in `..`, or in nothing at
/// all has no file name.
pub open spec fn file_name(path: Seq<char>) -> Option<Seq<char>> {
    let name = after_last(path.take(trimmed_len(path) as int), SEPARATOR);
    if name.len() == 0 || name == parent_component() {
        None
    } else {
        Some(name)
    }
}

/// The extension of `path`: what follows the last `.` of its file name. There
/// is none where the path has no file name, where the file name holds no `.`,
/// and where its only `.` is its first character (a hidden file). A file name
/// that ends in `.` has the empty extension.
pub open spec fn extension(path: Seq<char>) -> Option<Seq<char>> {
    match file_name(path) {
        None => None,
        Some(name) => match name.index_of_last(DOT) {
            Some(i) if i > 0 => Some(name.skip(i + 1)),
            _ => None,
        },
    }
}

/// The characters of `s`, in order.
pub fn chars_of(s: &str) -> (chars: Vec<char>)
    ensures
        chars@ == s@,
{
    let mut chars: Vec<char> = Vec::new();
    for c in it: s.chars()
        invariant
            chars@ == it.seq().take(it.index() as int),
            it.seq() == s@,
    {
        chars.push(c);
    }
    chars
}

/// `i` is where `c` occurs last in `s`.
proof fn lemma_last_occurrence(s: Seq<char>, c: char, i: int)
    requires
        0 <= i < s.len(),
        s[i] == c,
        forall|j: int| i < j < s.len() ==> s[j] != c,
    ensures
        s.index_of_last(c) == Some(i),
{
    s.index_of_last_ensures(c);
    assert(s.contains(c));
}

/// `c` does not occur in `s`.
proof fn lemma_no_occurrence(s: Seq<char>, c: char)
    requires
        forall|j: int| 0 <= j < s.len() ==> s[j] != c,
    ensures
        s.index_of_last(c) is None,
{
    s.index_of_last_ensures(c);
}

/// Dropping one trailing separator or `.` component leaves the trimmed length
/// as it was.
proof fn lemma_trim_step(path: Seq<char>, end: int)
    requires
        0 < end <= path.len(),
        path[end - 1] == SEPARATOR || (path[end - 1] == DOT && (end == 1 || path[end - 2]
            == SEPARATOR)),
    ensures
        trimmed_len(path.take(end)) == trimmed_len(path.take(end - 1)),
{
    assert(path.take(end).drop_last() =~= path.take(end - 1));
}

/// The extension of `path`, borrowed from it.
pub fn extension_of(path: &str) -> (ext: Option<&str>)
    ensures
        match ext {
            Some(e) => extension(path@) == Some(e@),
            None => extension(path@) is None,
        },
{
    let chars = chars_of(path);
    let mut end: usize = chars.len();
    assert(chars@.take(end as int) =~= chars@);
    while end > 0 && (chars[end - 1] == SEPARATOR || (chars[end - 1] == DOT && (end == 1
        || chars[end - 2] == SEPARATOR)))
        invariant
            end <= chars.len(),
            trimmed_len(chars@) == trimmed_len(chars@.take(end as int)),
        decreases end,
    {
        proof {
            lemma_trim_step(chars@, end as int);
        }
        end -= 1;
    }
    let ghost body = chars@.take(end as int);
    assert(trimmed_len(chars@) == end);
    let mut start: usize = end;
    while start > 0 && chars[start - 1] != SEPARATOR
        invariant
            start <= end <= chars.len(),
            forall|j: int| start <= j < end ==> chars@[j] != SEPARATOR,
        decreases start,
    {
        start -= 1;
    }
    let ghost name = body.skip(start as int);
    proof {
        if start > 0 {
            lemma_last_occurrence(body, SEPARATOR, start - 1);
        } else {
            lemma_no_occurrence(body, SEPARATOR);
            assert(body.skip(0) =~= body);
        }
        assert(after_last(body, SEPARATOR) == name);
    }
    if start == end {
        return None;
    }
    if end - start == 2 && chars[start] == DOT && chars[start + 1] == DOT {
        assert(name =~= parent_component());
        return None;
    }
    assert(name != parent_component()) by {
        if name == parent_component() {
            assert(name.len() == 2);
            assert(name[0] == DOT && name[1] == DOT);
        }
    }
    assert(file_name(chars@) == Some(name));
    let mut dot: usize = end;
    while dot > start && chars[dot - 1] != DOT
        invariant
            start <= dot <= end <= chars.len(),
            forall|j: int| dot <= j < end ==> chars@[j] != DOT,
        decreases dot,
    {
        dot -= 1;
    }
    if dot == start {
        proof {
            lemma_no_occurrence(name, DOT);
        }
        return None;
    }
    proof {
        lemma_last_occurrence(name, DOT, dot - 1 - start);
    }
    if dot - 1 == start {
        return None;
    }
    let ext = path.substring_char(dot, end);
    assert(ext@ =~= name.skip(dot - start));
    Some(ext)
}

/// A path made of a directory part, a stem, a `.` and an extension has that
/// extension: `dir/stem.ext` has `ext`, and `stem.` has the empty one. The
/// directory part is empty or ends in a separator, the stem is not empty and
/// holds no separator, and the extension holds neither a separator nor a `.`;
/// `..` is left out, which names the parent directory.
pub proof fn law_extension_of_stem_and_ext(dir: Seq<char>, stem: Seq<char>, ext: Seq<char>)
    requires
        dir.len() == 0 || dir.last() == SEPARATOR,
        stem.len() > 0,
        !stem.contains(SEPARATOR),
        !ext.contains(SEPARATOR),
        !ext.contains(DOT),
        !(stem == seq![DOT] && ext.len() == 0),
    ensures
        extension(dir + stem + seq![DOT] + ext) == Some(ext),
{
    let name = stem + seq![DOT] + ext;
    let path = dir + stem + seq![DOT] + ext;
    assert(path =~= dir + name);
    assert(path.last() == name.last());
    assert(name[stem.len() as int] == DOT);
    assert(stem.contains(stem.last()));
    if ext.len() > 0 {
        assert(ext.contains(ext.last()));
        assert(name.last() == ext.last());
    } else {
        assert(name.last() == DOT);
        assert(path[path.len() - 2] == stem.last());
    }
    assert(trimmed_len(path) == path.len());
    assert(path.take(path.len() as int) =~= path);
    assert forall|j: int| dir.len() <= j < path.len() implies path[j] != SEPARATOR by {
        let k = j - dir.len();
        if k < stem.len() {
            assert(stem.contains(stem[k]));
        } else if k > stem.len() {
            assert(ext.contains(ext[k - stem.len() - 1]));
        }
    }
    if dir.len() > 0 {
        lemma_last_occurrence(path, SEPARATOR, dir.len() - 1);
    } else {
        lemma_no_occurrence(path, SEPARATOR);
    }
    assert(after_last(path, SEPARATOR) =~= name);
    assert(name != parent_component()) by {
        if name == parent_component() {
            assert(name.len() == 2);
            assert(stem.len() == 1 && ext.len() == 0);
            assert(stem[0] == name[0]);
            assert(stem =~= seq![DOT]);
        }
    }
    assert(file_name(path) == Some(name));
    assert forall|j: int| stem.len() < j < name.len() implies name[j] != DOT by {
        assert(ext.contains(ext[j - stem.len() - 1]));
    }
    lemma_last_occurrence(name, DOT, stem.len() as int);
    assert(name.skip(stem.len() as int + 1) =~= ext);
}

/// Separators at the end of a path do not change its extension.
pub proof fn law_trailing_separator_is_ignored(path: Seq<char>)
    ensures
        extension(path.push(SEPARATOR)) == extension(path),
{
    let longer = path.push(SEPARATOR);
    assert(longer.drop_last() =~= path);
    assert(trimmed_len(longer) == trimmed_len(path));
    lemma_trimmed_len_bound(path);
    assert(longer.take(trimmed_len(path) as int) =~= path.take(trimmed_len(path) as int));
}

/// An extension holds neither a separator nor a `.`.
pub proof fn law_extension_is_one_word(path: Seq<char>)
    requires
        extension(path) is Some,
    ensures
        !extension(path)->0.contains(SEPARATOR),
        !extension(path)->0.contains(DOT),
{
    lemma_trimmed_len_bound(path);
    let body = path.take(trimmed_len(path) as int);
    let name = after_last(body, SEPARATOR);
    let ext = extension(path)->0;
    body.index_of_last_ensures(SEPARATOR);
    name.index_of_last_ensures(DOT);
    let dot = name.index_of_last(DOT)->0;
    assert forall|j: int| 0 <= j < ext.len() implies ext[j] != DOT && ext[j] != SEPARATOR by {
        assert(ext[j] == name[dot + 1 + j]);
        match body.index_of_last(SEPARATOR) {
            Some(i) => {
                assert(name[dot + 1 + j] == body[i + 1 + dot + 1 + j]);
            },
            None => {
                assert(body.contains(body[dot + 1 + j]));
            },
        }
    }
}

/// What is left of a path after trimming is no longer than the path.
proof fn lemma_trimmed_len_bound(path: Seq<char>)
    ensures
        trimmed_len(path) <= path.len(),
    decreases path.len(),
{
    if path.len() > 0 {
        lemma_trimmed_len_bound(path.drop_last());
    }
}

} // verus!
