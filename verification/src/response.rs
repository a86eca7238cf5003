use vstd::prelude::*;

verus! {

/// Outcome of a save, save-as or export command, as reported to the caller.
/// Exactly one of `path` and `error` is present: the written path on
/// success, a descriptive message on failure.
pub struct SaveResponse {
    pub success: bool,
    pub path: Option<String>,
    pub error: Option<String>,
}

impl SaveResponse {
    /// The response reports failure, carries no path, and carries exactly the
    /// message `msg`.
    pub open spec fn is_failure_with(self, msg: Seq<char>) -> bool {
        &&& !self.success
        &&& self.path is None
        &&& self.error matches Some(e) && e@ == msg
    }

    /// The response reports success at the path `p` and carries no error.
    pub open spec fn is_success_at(self, p: Seq<char>) -> bool {
        &&& self.success
        &&& self.path matches Some(q) && q@ == p
        &&& self.error is None
    }

    /// Builds the failure response that carries `msg`.
    pub fn failure(msg: String) -> (r: SaveResponse)
        ensures
            r.is_failure_with(msg@),
    {
        SaveResponse { success: false, path: None, error: Some(msg) }
    }

    /// Builds the success response that carries the written path.
    pub fn success_at(path: String) -> (r: SaveResponse)
        ensures
            r.is_success_at(path@),
    {
        SaveResponse { success: true, path: Some(path), error: None }
    }
}

/// Answer to a query for the current path of record.
pub struct DbPathResponse {
    pub path: Option<String>,
}

impl DbPathResponse {
    /// The carried path as a sequence of characters, if any.
    pub open spec fn path_view(&self) -> Option<Seq<char>> {
        match self.path {
            Some(p) => Some(p@),
            None => None,
        }
    }
}

/// Relies on alloc's `format!` macro: the result is `prefix` followed by
/// `detail`, and nothing else. Used to put the operating system's error text
/// after a fixed message prefix.
#[verifier::external_body]
pub(crate) fn concat(prefix: &str, detail: &str) -> (r: String)
    ensures
        r@ == prefix@ + detail@,
{
    format!("{}{}", prefix, detail)
}

} // verus!
