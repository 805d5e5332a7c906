//! Which datastore a configuration string selects.
use vstd::prelude::*;
use vstd::string::StrSliceExecFns;

verus! {

/// The datastore that a server is started with.
#[derive(Debug)]
pub enum Backend {
    /// The in-memory datastore.
    Memory,
    /// The persistent engine, with the place where it keeps its data.
    Persistent { path: String },
}

/// The mathematical value of a backend choice.
pub enum BackendView {
    Memory,
    Persistent { path: Seq<char> },
}

impl View for Backend {
    type V = BackendView;

    open spec fn view(&self) -> BackendView {
        match self {
            Backend::Memory => BackendView::Memory,
            Backend::Persistent { path } => BackendView::Persistent { path: path@ },
        }
    }
}

/// The configuration string of the in-memory datastore.
pub open spec fn memory_uri() -> Seq<char> {
    "memory://"@
}

/// What a persistent datastore's configuration string begins with; the
/// rest of the string is the path.
pub open spec fn persistent_scheme() -> Seq<char> {
    "rocksdb://"@
}

/// Whether `s` begins with `prefix`.
pub open spec fn begins_with(s: Seq<char>, prefix: Seq<char>) -> bool {
    prefix.len() <= s.len() && s.take(prefix.len() as int) == prefix
}

/// What a configuration string selects: the in-memory datastore for
/// exactly `memory://`, the persistent engine for the persistent scheme
/// followed by a path, and nothing for any other string.
pub open spec fn selected(uri: Seq<char>) -> Option<BackendView> {
    if uri == memory_uri() {
        Some(BackendView::Memory)
    } else if begins_with(uri, persistent_scheme()) {
        Some(BackendView::Persistent { path: uri.skip(persistent_scheme().len() as int) })
    } else {
        None
    }
}

/// `str::strip_prefix` of std: the rest of `s` after `prefix` when `s`
/// begins with it, nothing otherwise.
#[verifier::external_body]
fn strip_prefix<'a>(s: &'a str, prefix: &str) -> (res: Option<&'a str>)
    ensures
        match res {
            Some(rest) => begins_with(s@, prefix@) && rest@ == s@.skip(prefix@.len() as int),
            None => !begins_with(s@, prefix@),
        },
{
    s.strip_prefix(prefix)
}

/// Reads a configuration string.
pub fn select_backend(uri: &str) -> (res: Option<Backend>)
    ensures
        match res {
            Some(b) => selected(uri@) == Some(b@),
            None => selected(uri@) is None,
        },
{
    proof {
        reveal_strlit("memory://");
        reveal_strlit("rocksdb://");
    }
    match strip_prefix(uri, "memory://") {
        Some(rest) => {
            if rest.unicode_len() == 0 {
                assert(uri@ =~= "memory://"@);
                return Some(Backend::Memory);
            }
            assert(uri@.len() != "memory://"@.len());
        },
        None => {
            assert("memory://"@.take("memory://"@.len() as int) =~= "memory://"@);
        },
    }
    match strip_prefix(uri, "rocksdb://") {
        Some(rest) => Some(Backend::Persistent { path: rest.to_owned() }),
        None => None,
    }
}

/// Whether a worker pool of this size can serve: it needs one worker at
/// least.
pub fn worker_count_ok(workers: usize) -> (res: bool)
    ensures
        res == (workers >= 1),
{
    workers >= 1
}

} // verus!
