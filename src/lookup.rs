//! Interpreting the server's answer to a lookup: which error it is, or which
//! ordered result set it carries.
use vstd::prelude::*;

verus! {

/// One entry of the server's `arrOptions` array: `i` is the entry's id and
/// the first element of `r` its display text.
#[derive(Debug)]
pub struct GreekWords {
    pub i: i32,
    pub r: (String, u32, u32),
}

/// One row of a result set: an identifier and the text shown for it.
#[derive(Debug)]
pub struct SearchResult {
    pub id: i32,
    pub text: String,
}

impl Clone for SearchResult {
    fn clone(&self) -> (r: Self)
        ensures
            r == *self,
    {
        SearchResult { id: self.id, text: self.text.clone() }
    }
}

impl PartialEq for SearchResult {
    fn eq(&self, o: &SearchResult) -> (r: bool) {
        self.id == o.id && self.text == o.text
    }
}

impl vstd::std_specs::cmp::PartialEqSpecImpl for SearchResult {
    open spec fn obeys_eq_spec() -> bool {
        true
    }

    open spec fn eq_spec(&self, o: &SearchResult) -> bool {
        self.id == o.id && self.text@ == o.text@
    }
}

/// Why a lookup produced no result set.
#[derive(Clone, Copy, Debug, PartialEq, Eq, Structural)]
pub enum LookupError {
    /// The server could not be reached, or did not answer in time.
    NetworkError,
    /// The server answered with a status outside 200..=299.
    HttpStatusError(u16),
    /// The body was not a JSON object with a well-formed `arrOptions` array.
    DecodeError,
}

/// What the transport brought back for one request.
#[derive(Debug)]
pub enum HttpReply {
    /// No response: connection failure or timeout.
    Unreachable,
    /// A response with its status code, and the `arrOptions` entries where the
    /// body decoded (`None` where it did not).
    Received { status: u16, entries: Option<Vec<GreekWords>> },
}

pub open spec fn is_success_status(status: u16) -> bool {
    200 <= status <= 299
}

pub open spec fn result_of(w: GreekWords) -> SearchResult {
    SearchResult { id: w.i, text: w.r.0 }
}

/// The result set of the entries `ws`, in the server's order.
pub open spec fn results_of(ws: Seq<GreekWords>) -> Seq<SearchResult> {
    ws.map_values(|w: GreekWords| result_of(w))
}

/// The outcome of a lookup whose transport brought back `reply`.
pub open spec fn lookup_outcome(reply: HttpReply) -> Result<Seq<SearchResult>, LookupError> {
    match reply {
        HttpReply::Unreachable => Err(LookupError::NetworkError),
        HttpReply::Received { status, entries } => {
            if !is_success_status(status) {
                Err(LookupError::HttpStatusError(status))
            } else {
                match entries {
                    None => Err(LookupError::DecodeError),
                    Some(ws) => Ok(results_of(ws@)),
                }
            }
        },
    }
}

/// A lookup outcome with its result set seen as a sequence.
pub open spec fn outcome_view(r: Result<Vec<SearchResult>, LookupError>) -> Result<
    Seq<SearchResult>,
    LookupError,
> {
    match r {
        Ok(rows) => Ok(rows@),
        Err(e) => Err(e),
    }
}

/// Maps each entry to a search result, keeping the order.
pub fn results_from_entries(entries: &Vec<GreekWords>) -> (r: Vec<SearchResult>)
    ensures
        r@ == results_of(entries@),
{
    let mut out: Vec<SearchResult> = Vec::new();
    let mut k: usize = 0;
    while k < entries.len()
        invariant
            k <= entries@.len(),
            out@ == results_of(entries@.subrange(0, k as int)),
        decreases entries@.len() - k,
    {
        let w = &entries[k];
        out.push(SearchResult { id: w.i, text: w.r.0.clone() });
        k = k + 1;
        assert(out@ =~= results_of(entries@.subrange(0, k as int)));
    }
    assert(entries@.subrange(0, k as int) =~= entries@);
    out
}

/// The outcome of a lookup from what its transport brought back: a network
/// error, a status error, a decode error, or the entries as a result set.
pub fn lookup_result(reply: HttpReply) -> (r: Result<Vec<SearchResult>, LookupError>)
    ensures
        outcome_view(r) == lookup_outcome(reply),
{
    match reply {
        HttpReply::Unreachable => Err(LookupError::NetworkError),
        HttpReply::Received { status, entries } => {
            if status < 200 || status > 299 {
                Err(LookupError::HttpStatusError(status))
            } else {
                match entries {
                    None => Err(LookupError::DecodeError),
                    Some(ws) => Ok(results_from_entries(&ws)),
                }
            }
        },
    }
}

} // verus!
