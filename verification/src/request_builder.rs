//! Assembly of the header and query-parameter sets of the search request.
//!
//! A pure step: given the resolved header pairs, the search term and an
//! optional cursor, it yields the exact pair lists the transport sends.
//! The cursor parameter is appended only when a cursor is present — it is
//! never sent as an empty string.

use vstd::prelude::*;

verus! {

/// The assembled request shape: header pairs and query parameters, as the
/// transport will send them.
pub struct RequestConfig {
    pub headers: Vec<(String, String)>,
    pub path_query: Vec<(String, String)>,
}

/// Builds the request shape.  The headers are carried over unchanged; the
/// query parameters are the search term, the fixed capability bundle the
/// endpoint expects, and — only when one is present — the cursor.
#[verifier::loop_isolation(false)]
pub fn build_request_config(
    headers: &Vec<(String, String)>,
    query: String,
    cursor: Option<String>,
) -> (r: RequestConfig)
    ensures
        r.headers@ == headers@,
        r.path_query@.len() == (if cursor is Some {
            6int
        } else {
            5int
        }),
        r.path_query@[0].0@ == "q"@ && r.path_query@[0].1 == query,
        r.path_query@[1].0@ == "count"@ && r.path_query@[1].1@ == "20"@,
        r.path_query@[2].0@ == "query_source"@ && r.path_query@[2].1@ == "typed_query"@,
        r.path_query@[3].0@ == "include_entities"@ && r.path_query@[3].1@ == "true"@,
        r.path_query@[4].0@ == "tweet_search_mode"@ && r.path_query@[4].1@ == "live"@,
        cursor matches Some(c) ==> r.path_query@[5].0@ == "cursor"@ && r.path_query@[5].1 == c,
{
    let mut hs: Vec<(String, String)> = Vec::new();
    let mut i: usize = 0;
    while i < headers.len()
        invariant
            0 <= i <= headers@.len(),
            hs@.len() == i,
            forall|k: int| 0 <= k < i ==> hs@[k] == headers@[k],
        decreases headers@.len() - i,
    {
        hs.push((headers[i].0.clone(), headers[i].1.clone()));
        i += 1;
    }
    proof {
        assert(hs@ =~= headers@);
    }
    let mut q: Vec<(String, String)> = Vec::new();
    q.push(("q".to_owned(), query));
    q.push(("count".to_owned(), "20".to_owned()));
    q.push(("query_source".to_owned(), "typed_query".to_owned()));
    q.push(("include_entities".to_owned(), "true".to_owned()));
    q.push(("tweet_search_mode".to_owned(), "live".to_owned()));
    match cursor {
        Some(c) => q.push(("cursor".to_owned(), c)),
        None => {},
    }
    RequestConfig { headers: hs, path_query: q }
}

} // verus!
