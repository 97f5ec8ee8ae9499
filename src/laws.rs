//! Properties that relate several functions of the library.
use vstd::prelude::*;
use vstd::string::StringSliceAdditionalSpecFns;
use crate::encoding::{
    REQUEST_BASE,
    is_url_safe,
    json_escape,
    json_unescape,
    lemma_json_round_trip,
    lemma_percent_encode_url_safe,
    lemma_percent_round_trip,
    percent_decode,
    percent_encode,
    query_parameter,
    request_url,
};
use crate::lookup::{HttpReply, LookupError, SearchResult, is_success_status, lookup_outcome};
use crate::controller::{ControllerState, after_lookup_finished, after_text_changed};

verus! {

/// Whatever bytes a query holds (quotes, spaces, backslashes, control bytes,
/// UTF-8 of any character), its request URL is the fixed endpoint followed by
/// a query value made of URL-safe bytes only; percent-decoding that value
/// gives the JSON query parameter, and JSON-unescaping the word inside it
/// gives back exactly the query.
pub proof fn lemma_request_url_round_trip(q: Seq<u8>)
    ensures
        ({
            let base = REQUEST_BASE.spec_bytes();
            let url = request_url(q);
            &&& url.subrange(0, base.len() as int) == base
            &&& percent_decode(url.subrange(base.len() as int, url.len() as int)) == query_parameter(q)
            &&& forall|i: int| base.len() <= i < url.len() ==> is_url_safe(#[trigger] url[i])
        }),
        json_unescape(json_escape(q)) == q,
{
    let base = REQUEST_BASE.spec_bytes();
    let url = request_url(q);
    let encoded = percent_encode(query_parameter(q));
    assert(url.subrange(0, base.len() as int) =~= base);
    assert(url.subrange(base.len() as int, url.len() as int) =~= encoded);
    lemma_percent_round_trip(query_parameter(q));
    lemma_percent_encode_url_safe(query_parameter(q));
    assert forall|i: int| base.len() <= i < url.len() implies is_url_safe(#[trigger] url[i]) by {
        assert(url[i] == encoded[i - base.len()]);
    }
    lemma_json_round_trip(q);
}

/// A successful reply whose body decoded gives a result set with one row per
/// entry, in the server's order, with the entry's `i` as id and the first
/// element of its `r` as text.
pub proof fn lemma_lookup_keeps_entries(reply: HttpReply)
    requires
        reply is Received,
        is_success_status(reply->status),
        reply->entries is Some,
    ensures
        lookup_outcome(reply) is Ok,
        ({
            let ws = reply->entries->0@;
            let rows = lookup_outcome(reply)->Ok_0;
            &&& rows.len() == ws.len()
            &&& forall|k: int|
                0 <= k < ws.len() ==> (#[trigger] rows[k]).id == ws[k].i && rows[k].text
                    == ws[k].r.0
        }),
{
}

/// A reply with a status outside 200..=299 is a status error, and the lookup
/// finishing with it leaves the result list as it was.
pub proof fn lemma_status_error_keeps_rows(s: ControllerState, generation: int, reply: HttpReply)
    requires
        reply is Received,
        !is_success_status(reply->status),
    ensures
        lookup_outcome(reply) == Err::<Seq<SearchResult>, LookupError>(
            LookupError::HttpStatusError(reply->status),
        ),
        after_lookup_finished(s, generation, lookup_outcome(reply)).rows == s.rows,
{
}

/// A successful reply whose body did not decode is a decode error, and the
/// lookup finishing with it leaves the result list as it was.
pub proof fn lemma_decode_error_keeps_rows(s: ControllerState, generation: int, reply: HttpReply)
    requires
        reply is Received,
        is_success_status(reply->status),
        reply->entries is None,
    ensures
        lookup_outcome(reply) == Err::<Seq<SearchResult>, LookupError>(LookupError::DecodeError),
        after_lookup_finished(s, generation, lookup_outcome(reply)).rows == s.rows,
{
}

/// Query `a` is issued, then query `b`; `b`'s lookup finishes first and
/// `a`'s after it. The late answer for `a` is discarded: the list holds `b`'s
/// results (or, if `b`'s lookup failed, the rows from before both queries).
pub proof fn lemma_newest_query_wins(
    s: ControllerState,
    a: Seq<char>,
    b: Seq<char>,
    outcome_a: Result<Seq<SearchResult>, LookupError>,
    outcome_b: Result<Seq<SearchResult>, LookupError>,
)
    ensures
        ({
            let s1 = after_text_changed(s, a);
            let s2 = after_text_changed(s1, b);
            let s3 = after_lookup_finished(s2, s2.latest, outcome_b);
            let s4 = after_lookup_finished(s3, s1.latest, outcome_a);
            &&& s4 == s3
            &&& s4.query == b
            &&& !s4.awaiting
            &&& s4.rows == match outcome_b {
                Ok(rows) => rows,
                Err(_) => s.rows,
            }
        }),
{
}

} // verus!
