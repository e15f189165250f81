//! Path strings: file names, extensions, stems and joining, with `/` as separator.
use vstd::prelude::*;
use vstd::string::StrSliceExecFns;
use vstd::string::StringExecFns;

verus! {

/// Index of the last occurrence of `c` in `s`, or -1.
pub open spec fn last_index_of(s: Seq<char>, c: char) -> int
    decreases s.len(),
{
    if s.len() == 0 {
        -1
    } else if s.last() == c {
        s.len() - 1
    } else {
        last_index_of(s.drop_last(), c)
    }
}

/// The characterisation of `last_index_of` by the position it names.
pub proof fn lemma_last_index_of(s: Seq<char>, c: char, k: int)
    requires
        -1 <= k < s.len(),
        k >= 0 ==> s[k] == c,
        forall|j: int| k < j < s.len() ==> s[j] != c,
    ensures
        last_index_of(s, c) == k,
    decreases s.len(),
{
    if s.len() > 0 && s.last() != c {
        assert forall|j: int| k < j < s.drop_last().len() implies s.drop_last()[j] != c by {
            assert(s.drop_last()[j] == s[j]);
        }
        lemma_last_index_of(s.drop_last(), c, k);
    }
}

/// The last path component: everything after the last `/`.
pub open spec fn file_name_of(p: Seq<char>) -> Seq<char> {
    p.subrange(last_index_of(p, '/') + 1, p.len() as int)
}

/// Position of the dot that starts the extension of a file name, if any;
/// a leading dot (a hidden file) starts no extension.
pub open spec fn ext_dot(name: Seq<char>) -> int {
    last_index_of(name, '.')
}

pub open spec fn has_extension(name: Seq<char>) -> bool {
    ext_dot(name) > 0
}

/// The extension of a file name (without the dot), or empty where it has none.
pub open spec fn extension_of(name: Seq<char>) -> Seq<char> {
    if has_extension(name) {
        name.subrange(ext_dot(name) + 1, name.len() as int)
    } else {
        Seq::empty()
    }
}

/// A file name without its extension.
pub open spec fn stem_of(name: Seq<char>) -> Seq<char> {
    if has_extension(name) {
        name.subrange(0, ext_dot(name))
    } else {
        name
    }
}

/// `dir` followed by `name`, with one separator between them.
pub open spec fn join_spec(dir: Seq<char>, name: Seq<char>) -> Seq<char> {
    if dir.len() == 0 {
        name
    } else if dir.last() == '/' {
        dir + name
    } else {
        dir + seq!['/'] + name
    }
}

/// The directory part of a path: everything before its last component.
pub open spec fn parent_of(p: Seq<char>) -> Seq<char> {
    p.subrange(0, last_index_of(p, '/') + 1)
}

/// Last position of `c` in `s`.
pub fn rfind_char(s: &str, c: char) -> (r: Option<usize>)
    ensures
        match r {
            Some(k) => k < s@.len() && k as int == last_index_of(s@, c),
            None => last_index_of(s@, c) == -1,
        },
{
    let n = s.unicode_len();
    let mut i: usize = n;
    while i > 0
        invariant
            i <= n,
            n == s@.len(),
            forall|j: int| i <= j < n ==> s@[j] != c,
        decreases i,
    {
        if s.get_char(i - 1) == c {
            proof {
                lemma_last_index_of(s@, c, i - 1);
            }
            return Some(i - 1);
        }
        i = i - 1;
    }
    proof {
        lemma_last_index_of(s@, c, -1);
    }
    None
}

/// Character-wise equality of two strings.
pub fn str_eq(a: &str, b: &str) -> (r: bool)
    ensures
        r == (a@ == b@),
{
    let n = a.unicode_len();
    if n != b.unicode_len() {
        return false;
    }
    let mut i: usize = 0;
    while i < n
        invariant
            n == a@.len(),
            n == b@.len(),
            i <= n,
            forall|j: int| 0 <= j < i ==> a@[j] == b@[j],
        decreases n - i,
    {
        if a.get_char(i) != b.get_char(i) {
            return false;
        }
        i = i + 1;
    }
    assert(a@ =~= b@);
    true
}

/// Whether `s` ends with `suffix`.
pub fn ends_with(s: &str, suffix: &str) -> (r: bool)
    ensures
        r == (suffix@.len() <= s@.len() && s@.subrange(
            s@.len() - suffix@.len(),
            s@.len() as int,
        ) == suffix@),
{
    let n = s.unicode_len();
    let m = suffix.unicode_len();
    if m > n {
        return false;
    }
    let tail = s.substring_char(n - m, n);
    str_eq(tail, suffix)
}

/// The last component of a path.
pub fn file_name(p: &str) -> (r: &str)
    ensures
        r@ == file_name_of(p@),
{
    let n = p.unicode_len();
    match rfind_char(p, '/') {
        Some(k) => p.substring_char(k + 1, n),
        None => p.substring_char(0, n),
    }
}

/// The directory part of a path, keeping its trailing separator.
pub fn parent(p: &str) -> (r: &str)
    ensures
        r@ == parent_of(p@),
{
    let len = p.unicode_len();
    match rfind_char(p, '/') {
        Some(k) => {
            assert(k < len);
            p.substring_char(0, k + 1)
        },
        None => p.substring_char(0, 0),
    }
}

/// The extension of a file name, empty where it has none.
pub fn extension(name: &str) -> (r: &str)
    ensures
        r@ == extension_of(name@),
{
    let n = name.unicode_len();
    match rfind_char(name, '.') {
        Some(k) => {
            if k > 0 {
                name.substring_char(k + 1, n)
            } else {
                name.substring_char(0, 0)
            }
        },
        None => name.substring_char(0, 0),
    }
}

/// A file name without its extension.
pub fn stem(name: &str) -> (r: &str)
    ensures
        r@ == stem_of(name@),
{
    let n = name.unicode_len();
    match rfind_char(name, '.') {
        Some(k) => {
            if k > 0 {
                name.substring_char(0, k)
            } else {
                name.substring_char(0, n)
            }
        },
        None => name.substring_char(0, n),
    }
}

/// `dir` and `name` joined by one separator.
pub fn join(dir: &str, name: &str) -> (r: String)
    ensures
        r@ == join_spec(dir@, name@),
{
    let n = dir.unicode_len();
    let mut r = String::from_str(dir);
    if n > 0 && dir.get_char(n - 1) != '/' {
        r.append("/");
    }
    proof {
        reveal_strlit("/");
    }
    r.append(name);
    proof {
        if n > 0 && dir@.last() != '/' {
            assert(r@ =~= dir@ + seq!['/'] + name@);
        }
    }
    r
}

} // verus!
