//! Extension resolution: the response's content type first, the locator's own
//! trailing extension second.

use vstd::prelude::*;

verus! {

/// The view of an optional string.
pub open spec fn opt_view(o: Option<String>) -> Option<Seq<char>> {
    match o {
        Some(s) => Some(s@),
        None => None,
    }
}

/// The extensions registered for a MIME type string, in the table's order.
pub uninterp spec fn mime_extensions_of(content_type: Seq<char>) -> Option<Seq<Seq<char>>>;

/// The view of an optional list of strings.
pub open spec fn opt_views(o: Option<Vec<String>>) -> Option<Seq<Seq<char>>> {
    match o {
        Some(v) => Some(v@.map_values(|e: String| e@)),
        None => None,
    }
}

/// Relies on mime_guess's `get_mime_extensions_str`: it looks the type up in
/// the crate's static table, so the answer depends on the string alone.
#[verifier::external_body]
fn mime_extensions(content_type: &str) -> (r: Option<Vec<String>>)
    ensures
        opt_views(r) == mime_extensions_of(content_type@),
{
    mime_guess::get_mime_extensions_str(content_type).map(
        |exts| exts.iter().map(|e| e.to_string()).collect(),
    )
}

/// `s` without its trailing `/` characters.
pub open spec fn trim_slashes(s: Seq<char>) -> Seq<char>
    decreases s.len(),
{
    if s.len() > 0 && s.last() == '/' {
        trim_slashes(s.drop_last())
    } else {
        s
    }
}

/// The part of `s` after its last `c`; all of `s` when it holds no `c`.
pub open spec fn after_last(s: Seq<char>, c: char) -> Seq<char>
    decreases s.len(),
{
    if s.len() == 0 {
        s
    } else if s.last() == c {
        Seq::empty()
    } else {
        after_last(s.drop_last(), c).push(s.last())
    }
}

/// The extension written in a locator: the non-empty text after the last `.`
/// of its final path segment, where that `.` does not open the segment.
pub open spec fn path_extension(locator: Seq<char>) -> Option<Seq<char>> {
    let segment = after_last(trim_slashes(locator), '/');
    let ext = after_last(segment, '.');
    if 0 < ext.len() && ext.len() + 1 < segment.len() {
        Some(ext)
    } else {
        None
    }
}

/// The first of a list of candidates, if there is one.
pub open spec fn first_candidate(candidates: Option<Seq<Seq<char>>>) -> Option<Seq<char>> {
    match candidates {
        Some(c) => if c.len() > 0 {
            Some(c[0])
        } else {
            None
        },
        None => None,
    }
}

/// The extension to store under: the first candidate of the content type's
/// mapping, else the locator's own extension.
pub open spec fn resolved_extension(
    candidates: Option<Seq<Seq<char>>>,
    locator: Seq<char>,
) -> Option<Seq<char>> {
    match first_candidate(candidates) {
        Some(e) => Some(e),
        None => path_extension(locator),
    }
}

/// The candidates that a content type maps to; none without a content type.
pub open spec fn candidates_for(content_type: Option<Seq<char>>) -> Option<Seq<Seq<char>>> {
    match content_type {
        Some(ct) => mime_extensions_of(ct),
        None => None,
    }
}

/// Index where the text after the last `c` in `s[lo..hi]` begins.
fn start_after_last(s: &str, lo: usize, hi: usize, c: char) -> (k: usize)
    requires
        lo <= hi <= s@.len(),
    ensures
        lo <= k <= hi,
        s@.subrange(k as int, hi as int) == after_last(s@.subrange(lo as int, hi as int), c),
{
    let mut k = hi;
    while k > lo && s.get_char(k - 1) != c
        invariant
            lo <= k <= hi <= s@.len(),
            after_last(s@.subrange(lo as int, hi as int), c) =~= after_last(
                s@.subrange(lo as int, k as int),
                c,
            ) + s@.subrange(k as int, hi as int),
        decreases k,
    {
        let ghost front = s@.subrange(lo as int, k as int);
        assert(front.drop_last() =~= s@.subrange(lo as int, k - 1));
        assert(s@.subrange(k - 1, hi as int) =~= seq![front.last()] + s@.subrange(
            k as int,
            hi as int,
        ));
        assert(after_last(front, c) == after_last(front.drop_last(), c).push(front.last()));
        assert(after_last(front.drop_last(), c).push(front.last()) + s@.subrange(k as int, hi as int)
            =~= after_last(front.drop_last(), c) + s@.subrange(k - 1, hi as int));
        k = k - 1;
    }
    k
}

/// Length of `s` without its trailing `/` characters.
fn trimmed_len(s: &str) -> (e: usize)
    ensures
        e <= s@.len(),
        trim_slashes(s@) == s@.subrange(0, e as int),
{
    let mut e = s.unicode_len();
    assert(s@.subrange(0, e as int) =~= s@);
    while e > 0 && s.get_char(e - 1) == '/'
        invariant
            e <= s@.len(),
            trim_slashes(s@) == trim_slashes(s@.subrange(0, e as int)),
        decreases e,
    {
        assert(s@.subrange(0, e as int).drop_last() =~= s@.subrange(0, e - 1));
        e = e - 1;
    }
    e
}

/// The extension written in a locator, if any.
pub fn path_extension_of(locator: &str) -> (r: Option<String>)
    ensures
        opt_view(r) == path_extension(locator@),
{
    let end = trimmed_len(locator);
    let start = start_after_last(locator, 0, end, '/');
    let dot = start_after_last(locator, start, end, '.');
    assert(locator@.subrange(start as int, end as int) =~= after_last(
        locator@.subrange(0, end as int),
        '/',
    ));
    if dot < end && start + 1 < dot {
        Some(String::from_str(locator.substring_char(dot, end)))
    } else {
        None
    }
}

/// Resolves the extension from the content type's candidate extensions and
/// the locator: the first candidate wins, else the locator's own extension.
pub fn resolve_with(candidates: Option<Vec<String>>, locator: &str) -> (r: Option<String>)
    ensures
        opt_view(r) == resolved_extension(opt_views(candidates), locator@),
{
    match candidates {
        Some(exts) if exts.len() > 0 => {
            let first = exts[0].clone();
            Some(first)
        },
        _ => path_extension_of(locator),
    }
}

/// Resolves the file extension of a fetched resource from its content type,
/// if one was given, and its locator.
pub fn resolve_extension(content_type: &Option<String>, locator: &str) -> (r: Option<String>)
    ensures
        opt_view(r) == resolved_extension(candidates_for(opt_view(*content_type)), locator@),
{
    let candidates = match content_type {
        Some(ct) => mime_extensions(ct.as_str()),
        None => None,
    };
    resolve_with(candidates, locator)
}

} // verus!
