//! The two names that are read off the text of a path: the final segment, and the
//! extension of that segment.

use vstd::prelude::*;
use vstd::string::*;

verus! {

/// The index of the last occurrence of `c` in `s`, or -1 where there is none.
pub open spec fn last_index_of(s: Seq<char>, c: char) -> int
    decreases s.len(),
{
    if s.len() == 0 {
        -1
    } else if s.last() == c {
        s.len() - 1
    } else {
        last_index_of(s.drop_last(), c)
    }
}

/// The final segment of a path: what follows its last separator, or all of it.
pub open spec fn file_name_spec(path: Seq<char>) -> Seq<char> {
    path.subrange(last_index_of(path, '/') + 1, path.len() as int)
}

/// The extension of a path: what follows the last dot of its final segment, and
/// nothing where the segment has no dot.
pub open spec fn extension_spec(path: Seq<char>) -> Seq<char> {
    let name = file_name_spec(path);
    let dot = last_index_of(name, '.');
    if dot < 0 {
        Seq::<char>::empty()
    } else {
        name.subrange(dot + 1, name.len() as int)
    }
}

/// `last_index_of` is below the length, points at an occurrence, and nothing occurs after it.
pub proof fn lemma_last_index_of(s: Seq<char>, c: char)
    ensures
        -1 <= last_index_of(s, c) < s.len(),
        last_index_of(s, c) >= 0 ==> s[last_index_of(s, c)] == c,
        forall|j: int| last_index_of(s, c) < j < s.len() ==> s[j] != c,
    decreases s.len(),
{
    if s.len() > 0 && s.last() != c {
        let t = s.drop_last();
        lemma_last_index_of(t, c);
        assert forall|j: int| last_index_of(s, c) < j < s.len() implies s[j] != c by {
            if j < t.len() {
                assert(t[j] == s[j]);
            }
        }
    }
}

/// An occurrence with none after it is the last one.
pub proof fn lemma_last_index_unique(s: Seq<char>, c: char, k: int)
    requires
        -1 <= k < s.len(),
        k >= 0 ==> s[k] == c,
        forall|j: int| k < j < s.len() ==> s[j] != c,
    ensures
        last_index_of(s, c) == k,
{
    lemma_last_index_of(s, c);
}

/// The final segment holds no separator, and the path ends with it.
pub proof fn lemma_file_name_is_suffix(path: Seq<char>)
    ensures
        forall|j: int| 0 <= j < file_name_spec(path).len() ==> file_name_spec(path)[j] != '/',
        file_name_spec(path).len() <= path.len(),
        path.subrange(path.len() - file_name_spec(path).len(), path.len() as int)
            == file_name_spec(path),
{
    lemma_last_index_of(path, '/');
}

/// The position of the last `c` in `s`.
fn last_index(s: &str, c: char) -> (r: Option<usize>)
    ensures
        match r {
            Some(k) => k as int == last_index_of(s@, c),
            None => last_index_of(s@, c) == -1,
        },
{
    let n: usize = s.unicode_len();
    let mut i: usize = n;
    while i > 0
        invariant
            i <= n,
            n == s@.len(),
            forall|j: int| i <= j < n ==> s@[j] != c,
        decreases i,
    {
        i -= 1;
        if s.get_char(i) == c {
            proof {
                lemma_last_index_unique(s@, c, i as int);
            }
            return Some(i);
        }
    }
    proof {
        lemma_last_index_unique(s@, c, -1);
    }
    None
}

/// The final segment of `path`, as a slice of it.
fn final_segment<'a>(path: &'a str) -> (r: &'a str)
    ensures
        r@ == file_name_spec(path@),
{
    let n: usize = path.unicode_len();
    proof {
        lemma_last_index_of(path@, '/');
    }
    let start: usize = match last_index(path, '/') {
        Some(k) => k + 1,
        None => 0,
    };
    path.substring_char(start, n)
}

/// The name of the file that a path leads to.
pub fn file_name_of(path: &str) -> (r: String)
    ensures
        r@ == file_name_spec(path@),
{
    String::from_str(final_segment(path))
}

/// The extension of the file that a path leads to, without its dot; empty where
/// the file has none.
pub fn extension_of(path: &str) -> (r: String)
    ensures
        r@ == extension_spec(path@),
{
    let name = final_segment(path);
    let m: usize = name.unicode_len();
    proof {
        lemma_last_index_of(name@, '.');
    }
    match last_index(name, '.') {
        None => String::new(),
        Some(dot) => String::from_str(name.substring_char(dot + 1, m)),
    }
}

/// The extension holds no dot and no separator, and the final segment ends with it.
pub proof fn lemma_extension_is_suffix(path: Seq<char>)
    ensures
        forall|j: int|
            0 <= j < extension_spec(path).len() ==> (#[trigger] extension_spec(path)[j]) != '.'
                && extension_spec(path)[j] != '/',
        extension_spec(path).len() <= file_name_spec(path).len(),
        file_name_spec(path).subrange(
            file_name_spec(path).len() - extension_spec(path).len(),
            file_name_spec(path).len() as int,
        ) == extension_spec(path),
{
    let name = file_name_spec(path);
    lemma_last_index_of(path, '/');
    lemma_last_index_of(name, '.');
    assert(name.subrange(0, name.len() as int) =~= name);
}

} // verus!
