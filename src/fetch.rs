//! Fetch-or-cache orchestration as a state machine. The caller performs each
//! action (listing the cache directory, fetching, reading the body, writing
//! or removing a file) and reports the outcome as the next event.

use crate::extension::{candidates_for, opt_view, resolve_extension, resolved_extension};
use crate::key::{key_of, url_to_filename};
use crate::store::{
    entry_file_name, entry_name, first_prefixed, is_first_prefixed, lemma_probe_finds_added_entry, names_view, probe,
};
use vstd::prelude::*;

verus! {

/// Why a fetch failed: the remote side, or anything local.
#[derive(Clone, Debug, PartialEq, Eq)]
pub enum FetchError {
    Network(String),
    Other(String),
}

/// A cache entry ready for use: its file name in the cache directory, and the
/// content type when the entry was just fetched.
#[derive(Clone, Debug, PartialEq, Eq)]
pub struct CacheResponse {
    pub file_name: String,
    pub content_type: Option<String>,
}

/// Where an orchestration stands.
#[derive(Debug)]
pub enum CacheState {
    /// Waiting for the cache directory's listing.
    Probing { locator: String, key: String },
    /// Waiting for the remote response.
    Fetching { locator: String, key: String },
    /// Waiting for the response body.
    Reading { file_name: String, content_type: Option<String> },
    /// Waiting for the entry to be written.
    Writing { file_name: String, content_type: Option<String> },
    /// Waiting for a partially written entry to be removed.
    Cleaning { file_name: String, error: String },
    /// Finished.
    Done,
}

/// The outcome of the last action.
#[derive(Debug)]
pub enum CacheEvent {
    /// The directory's file names, or `None` when it could not be listed.
    Listed(Option<Vec<String>>),
    /// The request did not complete.
    FetchFailed(String),
    /// A response arrived, with its status text and its content type if offered.
    Responded { success: bool, status: String, content_type: Option<String> },
    BodyRead(Vec<u8>),
    BodyFailed(String),
    /// The entry's file could not be created.
    CreateFailed(String),
    /// The entry's file was created but not fully written.
    WriteFailed(String),
    Written,
    Removed,
}

/// What the caller does next.
#[derive(Debug)]
pub enum CacheAction {
    ListDirectory,
    Fetch { url: String },
    ReadBody,
    /// Create the named file in the cache directory and write all bytes.
    Write { file_name: String, bytes: Vec<u8> },
    /// Delete the named file from the cache directory.
    Remove { file_name: String },
    Finish(Result<CacheResponse, FetchError>),
}

pub open spec fn fetch_failed_msg(detail: Seq<char>) -> Seq<char> {
    "Failed to fetch URL: "@ + detail
}

pub open spec fn status_failed_msg(status: Seq<char>) -> Seq<char> {
    "Request failed with status: "@ + status
}

pub open spec fn read_failed_msg(detail: Seq<char>) -> Seq<char> {
    "Failed to read response bytes: "@ + detail
}

pub open spec fn create_failed_msg(detail: Seq<char>) -> Seq<char> {
    "Failed to create cache file: "@ + detail
}

pub open spec fn write_failed_msg(detail: Seq<char>) -> Seq<char> {
    "Failed to write cache file: "@ + detail
}

/// `e` is a network error (or, with `network` false, a local one) saying `msg`.
pub open spec fn error_is(e: FetchError, network: bool, msg: Seq<char>) -> bool {
    match e {
        FetchError::Network(m) => network && m@ == msg,
        FetchError::Other(m) => !network && m@ == msg,
    }
}

/// `a` finishes with the entry `name`, reporting content type `ct`.
pub open spec fn finishes_with(a: CacheAction, name: Seq<char>, ct: Option<Seq<char>>) -> bool {
    match a {
        CacheAction::Finish(Ok(r)) => r.file_name@ == name && opt_view(r.content_type) == ct,
        _ => false,
    }
}

/// `a` finishes with an error of the given kind saying `msg`.
pub open spec fn fails_with(a: CacheAction, network: bool, msg: Seq<char>) -> bool {
    match a {
        CacheAction::Finish(Err(e)) => error_is(e, network, msg),
        _ => false,
    }
}

/// The first entry of a listing that belongs to `key`; none when the listing failed.
pub open spec fn probe_hit(listing: Option<Vec<String>>, key: Seq<char>) -> Option<int> {
    match listing {
        Some(v) => first_prefixed(names_view(v@), key),
        None => None,
    }
}

/// Whether the machine in state `s` expects event `e`.
pub open spec fn expects(s: CacheState, e: CacheEvent) -> bool {
    match s {
        CacheState::Probing { .. } => e is Listed,
        CacheState::Fetching { .. } => e is FetchFailed || e is Responded,
        CacheState::Reading { .. } => e is BodyRead || e is BodyFailed,
        CacheState::Writing { .. } => e is CreateFailed || e is WriteFailed || e is Written,
        CacheState::Cleaning { .. } => e is Removed,
        CacheState::Done => false,
    }
}

/// The machine's rule: from state `s`, event `e` leads to state `t` and action `a`.
pub open spec fn transition(s: CacheState, e: CacheEvent, t: CacheState, a: CacheAction) -> bool {
    match s {
        CacheState::Probing { locator, key } => match e {
            CacheEvent::Listed(listing) => match probe_hit(listing, key@) {
                Some(i) => t is Done && finishes_with(a, names_view(listing->Some_0@)[i], None),
                None => {
                    &&& t matches CacheState::Fetching { locator: l, key: k }
                    &&& l@ == locator@ && k@ == key@
                    &&& a matches CacheAction::Fetch { url } && url@ == locator@
                },
            },
            _ => false,
        },
        CacheState::Fetching { locator, key } => match e {
            CacheEvent::FetchFailed(d) => t is Done && fails_with(a, true, fetch_failed_msg(d@)),
            CacheEvent::Responded { success, status, content_type } => if success {
                &&& t matches CacheState::Reading { file_name, content_type: ct }
                &&& file_name@ == entry_name(
                    key@,
                    resolved_extension(candidates_for(opt_view(content_type)), locator@),
                )
                &&& opt_view(ct) == opt_view(content_type)
                &&& a is ReadBody
            } else {
                t is Done && fails_with(a, true, status_failed_msg(status@))
            },
            _ => false,
        },
        CacheState::Reading { file_name, content_type } => match e {
            CacheEvent::BodyFailed(d) => t is Done && fails_with(a, false, read_failed_msg(d@)),
            CacheEvent::BodyRead(bytes) => {
                &&& t matches CacheState::Writing { file_name: f, content_type: ct }
                &&& f@ == file_name@ && opt_view(ct) == opt_view(content_type)
                &&& a matches CacheAction::Write { file_name: f, bytes: b }
                &&& f@ == file_name@ && b@ == bytes@
            },
            _ => false,
        },
        CacheState::Writing { file_name, content_type } => match e {
            CacheEvent::CreateFailed(d) => t is Done && fails_with(
                a,
                false,
                create_failed_msg(d@),
            ),
            CacheEvent::WriteFailed(d) => {
                &&& t matches CacheState::Cleaning { file_name: f, error }
                &&& f@ == file_name@ && error@ == write_failed_msg(d@)
                &&& a matches CacheAction::Remove { file_name: f } && f@ == file_name@
            },
            CacheEvent::Written => t is Done && finishes_with(
                a,
                file_name@,
                opt_view(content_type),
            ),
            _ => false,
        },
        CacheState::Cleaning { file_name, error } => match e {
            CacheEvent::Removed => t is Done && fails_with(a, false, error@),
            _ => false,
        },
        CacheState::Done => false,
    }
}

impl CacheState {
    /// Whether this state expects `event`.
    pub fn expects(&self, event: &CacheEvent) -> (r: bool)
        ensures
            r == expects(*self, *event),
    {
        match self {
            CacheState::Probing { .. } => matches!(event, CacheEvent::Listed(_)),
            CacheState::Fetching { .. } => matches!(
                event,
                CacheEvent::FetchFailed(_) | CacheEvent::Responded { .. }
            ),
            CacheState::Reading { .. } => matches!(
                event,
                CacheEvent::BodyRead(_) | CacheEvent::BodyFailed(_)
            ),
            CacheState::Writing { .. } => matches!(
                event,
                CacheEvent::CreateFailed(_) | CacheEvent::WriteFailed(_) | CacheEvent::Written
            ),
            CacheState::Cleaning { .. } => matches!(event, CacheEvent::Removed),
            CacheState::Done => false,
        }
    }

    /// Whether the orchestration has finished.
    pub fn is_done(&self) -> (r: bool)
        ensures
            r == (*self is Done),
    {
        matches!(self, CacheState::Done)
    }
}

/// Prefixes `detail` with `prefix`.
fn prefixed(prefix: &str, detail: &str) -> (r: String)
    ensures
        r@ == prefix@ + detail@,
{
    String::from_str(prefix).concat(detail)
}

/// The error for a request that did not complete.
pub fn fetch_failed(detail: &str) -> (r: FetchError)
    ensures
        error_is(r, true, fetch_failed_msg(detail@)),
{
    FetchError::Network(prefixed("Failed to fetch URL: ", detail))
}

/// The error for a response whose status is not a success.
pub fn status_failed(status: &str) -> (r: FetchError)
    ensures
        error_is(r, true, status_failed_msg(status@)),
{
    FetchError::Network(prefixed("Request failed with status: ", status))
}

pub open spec fn body_failed_msg(detail: Seq<char>) -> Seq<char> {
    "Failed to read response body: "@ + detail
}

/// The error for a text body that could not be read.
pub fn body_failed(detail: &str) -> (r: FetchError)
    ensures
        error_is(r, false, body_failed_msg(detail@)),
{
    FetchError::Other(prefixed("Failed to read response body: ", detail))
}

/// Begins an orchestration for `locator`: derive its key, then list the cache directory.
pub fn start(locator: &str) -> (r: (CacheState, CacheAction))
    ensures
        r.0 matches CacheState::Probing { locator: l, key } && l@ == locator@ && key@ == key_of(
            locator@,
        ),
        r.1 is ListDirectory,
{
    let key = url_to_filename(locator);
    (CacheState::Probing { locator: String::from_str(locator), key }, CacheAction::ListDirectory)
}

/// Advances the orchestration by one event.
pub fn step(state: CacheState, event: CacheEvent) -> (r: (CacheState, CacheAction))
    requires
        expects(state, event),
    ensures
        transition(state, event, r.0, r.1),
{
    match (state, event) {
        (CacheState::Probing { locator, key }, CacheEvent::Listed(listing)) => {
            let hit = match &listing {
                Some(names) => match probe(names, key.as_str()) {
                    Some(i) => Some(names[i].clone()),
                    None => None,
                },
                None => None,
            };
            match hit {
                Some(name) => (
                    CacheState::Done,
                    CacheAction::Finish(Ok(CacheResponse { file_name: name, content_type: None })),
                ),
                None => {
                    let url = locator.clone();
                    (CacheState::Fetching { locator, key }, CacheAction::Fetch { url })
                },
            }
        },
        (CacheState::Fetching { .. }, CacheEvent::FetchFailed(detail)) => (
            CacheState::Done,
            CacheAction::Finish(Err(fetch_failed(detail.as_str()))),
        ),
        (
            CacheState::Fetching { locator, key },
            CacheEvent::Responded { success, status, content_type },
        ) => {
            if success {
                let ext = resolve_extension(&content_type, locator.as_str());
                let file_name = entry_file_name(key.as_str(), &ext);
                (CacheState::Reading { file_name, content_type }, CacheAction::ReadBody)
            } else {
                (CacheState::Done, CacheAction::Finish(Err(status_failed(status.as_str()))))
            }
        },
        (CacheState::Reading { .. }, CacheEvent::BodyFailed(detail)) => (
            CacheState::Done,
            CacheAction::Finish(
                Err(FetchError::Other(prefixed("Failed to read response bytes: ", detail.as_str()))),
            ),
        ),
        (CacheState::Reading { file_name, content_type }, CacheEvent::BodyRead(bytes)) => {
            let target = file_name.clone();
            (
                CacheState::Writing { file_name, content_type },
                CacheAction::Write { file_name: target, bytes },
            )
        },
        (CacheState::Writing { .. }, CacheEvent::CreateFailed(detail)) => (
            CacheState::Done,
            CacheAction::Finish(
                Err(FetchError::Other(prefixed("Failed to create cache file: ", detail.as_str()))),
            ),
        ),
        (CacheState::Writing { file_name, .. }, CacheEvent::WriteFailed(detail)) => {
            let error = prefixed("Failed to write cache file: ", detail.as_str());
            let target = file_name.clone();
            (CacheState::Cleaning { file_name, error }, CacheAction::Remove { file_name: target })
        },
        (CacheState::Writing { file_name, content_type }, CacheEvent::Written) => (
            CacheState::Done,
            CacheAction::Finish(Ok(CacheResponse { file_name, content_type })),
        ),
        (CacheState::Cleaning { error, .. }, CacheEvent::Removed) => (
            CacheState::Done,
            CacheAction::Finish(Err(FetchError::Other(error))),
        ),
        _ => {
            assert(false);
            (CacheState::Done, CacheAction::ListDirectory)
        },
    }
}

/// Fetching the same locator twice fetches once. Against a listing with no
/// entry for the locator, a run goes to the network; once the entry that run
/// wrote is listed (wherever the listing places it), a later run finishes at
/// once with that entry and fetches nothing.
pub proof fn lemma_fetch_once(
    s: CacheState,
    before: Vec<String>,
    after: Vec<String>,
    pos: int,
    ext: Option<Seq<char>>,
    t1: CacheState,
    a1: CacheAction,
    t2: CacheState,
    a2: CacheAction,
)
    requires
        s is Probing,
        s->Probing_key@ == key_of(s->Probing_locator@),
        forall|j: int|
            0 <= j < before@.len() ==> !key_of(s->Probing_locator@).is_prefix_of(
                #[trigger] before@[j]@,
            ),
        0 <= pos <= before@.len(),
        names_view(after@) == names_view(before@).insert(
            pos,
            entry_name(key_of(s->Probing_locator@), ext),
        ),
        transition(s, CacheEvent::Listed(Some(before)), t1, a1),
        transition(s, CacheEvent::Listed(Some(after)), t2, a2),
    ensures
        t1 is Fetching,
        a1 matches CacheAction::Fetch { url } && url@ == s->Probing_locator@,
        t2 is Done,
        finishes_with(a2, entry_name(key_of(s->Probing_locator@), ext), None),
{
    let key = key_of(s->Probing_locator@);
    let names = names_view(before@);
    assert forall|j: int| 0 <= j < names.len() implies !key.is_prefix_of(#[trigger] names[j]) by {
        assert(names[j] == before@[j]@);
    }
    assert forall|j: int| !is_first_prefixed(names, key, j) by {
        if 0 <= j < names.len() {
            assert(!key.is_prefix_of(names[j]));
        }
    }
    lemma_probe_finds_added_entry(names, key, ext, pos);
}

/// A write that fails after its file was created leaves no partial entry:
/// the machine has that very file removed, then reports the write error.
pub proof fn lemma_failed_write_is_removed(
    s: CacheState,
    detail: String,
    t1: CacheState,
    a1: CacheAction,
    t2: CacheState,
    a2: CacheAction,
)
    requires
        s is Writing,
        transition(s, CacheEvent::WriteFailed(detail), t1, a1),
        transition(t1, CacheEvent::Removed, t2, a2),
    ensures
        a1 matches CacheAction::Remove { file_name } && file_name@ == s->Writing_file_name@,
        t2 is Done,
        fails_with(a2, false, write_failed_msg(detail@)),
{
}

} // verus!
