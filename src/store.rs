//! The cache directory's naming rules: an entry is named by its key, with the
//! extension appended when one is known, and is found by key prefix.

use crate::extension::opt_view;
use vstd::prelude::*;

verus! {

/// The file name of the entry for `key` with extension `ext`.
pub open spec fn entry_name(key: Seq<char>, ext: Option<Seq<char>>) -> Seq<char> {
    match ext {
        Some(e) => key + seq!['.'] + e,
        None => key,
    }
}

/// The views of a listing of file names.
pub open spec fn names_view(names: Seq<String>) -> Seq<Seq<char>> {
    names.map_values(|n: String| n@)
}

/// `i` is the first position of `names` whose name starts with `key`.
pub open spec fn is_first_prefixed(names: Seq<Seq<char>>, key: Seq<char>, i: int) -> bool {
    &&& 0 <= i < names.len()
    &&& key.is_prefix_of(names[i])
    &&& forall|j: int| 0 <= j < i ==> !key.is_prefix_of(#[trigger] names[j])
}

/// The first position of `names` whose name starts with `key`, if any.
pub open spec fn first_prefixed(names: Seq<Seq<char>>, key: Seq<char>) -> Option<int> {
    if exists|i: int| is_first_prefixed(names, key, i) {
        Some(choose|i: int| is_first_prefixed(names, key, i))
    } else {
        None
    }
}

/// Builds the file name of the entry for `key` with extension `ext`.
pub fn entry_file_name(key: &str, ext: &Option<String>) -> (r: String)
    ensures
        r@ == entry_name(key@, opt_view(*ext)),
{
    let name = String::from_str(key);
    match ext {
        Some(e) => {
            let with_dot = name.concat(".");
            proof {
                reveal_strlit(".");
            }
            let r = with_dot.concat(e.as_str());
            r
        },
        None => name,
    }
}

/// Whether `name` starts with `key`.
pub fn starts_with(name: &str, key: &str) -> (r: bool)
    ensures
        r == key@.is_prefix_of(name@),
{
    let n = name.unicode_len();
    let k = key.unicode_len();
    if k > n {
        return false;
    }
    let mut i: usize = 0;
    while i < k
        invariant
            k <= n,
            n == name@.len(),
            k == key@.len(),
            i <= k,
            key@.subrange(0, i as int) =~= name@.subrange(0, i as int),
        decreases k - i,
    {
        if key.get_char(i) != name.get_char(i) {
            assert(key@[i as int] != name@.subrange(0, k as int)[i as int]);
            return false;
        }
        i = i + 1;
    }
    assert(key@ =~= key@.subrange(0, k as int));
    true
}

/// Finds the first listed name that starts with `key`.
pub fn probe(names: &Vec<String>, key: &str) -> (r: Option<usize>)
    ensures
        match r {
            Some(i) => first_prefixed(names_view(names@), key@) == Some(i as int),
            None => first_prefixed(names_view(names@), key@) is None,
        },
{
    let ghost view = names_view(names@);
    let mut i: usize = 0;
    while i < names.len()
        invariant
            i <= names@.len(),
            view == names_view(names@),
            forall|j: int| 0 <= j < i ==> !key@.is_prefix_of(#[trigger] view[j]),
        decreases names@.len() - i,
    {
        if starts_with(names[i].as_str(), key) {
            assert(is_first_prefixed(view, key@, i as int));
            assert forall|j: int| is_first_prefixed(view, key@, j) implies j == i by {
                if j > i {
                    assert(key@.is_prefix_of(view[i as int]));
                }
            }
            return Some(i);
        }
        i = i + 1;
    }
    assert forall|j: int| !is_first_prefixed(view, key@, j) by {
        if 0 <= j < view.len() {
            assert(!key@.is_prefix_of(view[j]));
        }
    }
    None
}

/// Adding the entry for a key to a listing that held no entry for that key
/// makes the probe find exactly the added entry, wherever it is listed.
pub proof fn lemma_probe_finds_added_entry(
    names: Seq<Seq<char>>,
    key: Seq<char>,
    ext: Option<Seq<char>>,
    pos: int,
)
    requires
        0 <= pos <= names.len(),
        forall|j: int| 0 <= j < names.len() ==> !key.is_prefix_of(#[trigger] names[j]),
    ensures
        first_prefixed(names.insert(pos, entry_name(key, ext)), key) == Some(pos),
{
    let listed = names.insert(pos, entry_name(key, ext));
    assert(key.is_prefix_of(entry_name(key, ext))) by {
        assert(entry_name(key, ext).subrange(0, key.len() as int) =~= key);
    }
    assert forall|j: int| 0 <= j < pos implies !key.is_prefix_of(#[trigger] listed[j]) by {
        assert(listed[j] == names[j]);
    }
    assert(is_first_prefixed(listed, key, pos));
    assert forall|j: int| is_first_prefixed(listed, key, j) implies j == pos by {
        if j > pos {
            assert(listed[j] == names[j - 1]);
        }
    }
}

} // verus!
