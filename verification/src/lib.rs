//! A single-shot client core for a social-media search API.
//!
//! The library holds the verified logic of the pipeline: resolving the
//! credential pair, building the header and query-parameter sets, and
//! extracting a cursor, posts and users from the loosely structured JSON
//! document the endpoint returns.  Network transport (HTTP, JSON decoding)
//! is left to the embedding application, which hands the parsed document
//! to this crate as a [`json::Json`] tree.

use vstd::prelude::*;

pub mod headers;
pub mod json;
pub mod models;
pub mod parser;
pub mod request_builder;

pub use headers::{build_headers, default_bearer, guest_from_activation, plan_tokens, TokenPlan};
pub use json::Json;
pub use models::{Tweet, TwitterError, TwitterResults, User};
pub use parser::{get_next_cursor, get_tweets, get_users};
pub use request_builder::{build_request_config, RequestConfig};

use models::{tweet_views, user_views};
use parser::{doc_cursor, doc_ok, doc_tweets, doc_users};

verus! {

/// The base URL of the search endpoint.
pub fn search_base_url() -> (r: String)
    ensures
        r@ == "https://twitter.com/i/api/2/search/adaptive.json"@,
{
    "https://twitter.com/i/api/2/search/adaptive.json".to_owned()
}

/// The URL of the guest-activation endpoint.
pub fn guest_activation_url() -> (r: String)
    ensures
        r@ == "https://api.twitter.com/1.1/guest/activate.json"@,
{
    "https://api.twitter.com/1.1/guest/activate.json".to_owned()
}

/// Assembles one page of results from the parsed search response.
///
/// Fails with `TwitterError::Cursor` exactly when the document's
/// top-level envelope is unrecognizable.  On success the page carries
/// every post and author the timeline declares, the guest token that was
/// used, and the next-page cursor — forced to `None` when the caller
/// disabled pagination, and falling back to the caller's own cursor when
/// the document declares none.
pub fn process_response(
    doc: &Json,
    previous_cursor: Option<String>,
    ignore_cursor: bool,
    guest_token: String,
) -> (r: Result<TwitterResults, TwitterError>)
    ensures
        doc_ok(*doc) ==> r is Ok,
        !doc_ok(*doc) ==> (r matches Err(e) && e == TwitterError::Cursor),
        r matches Ok(page) ==> {
            &&& (ignore_cursor ==> page.cursor is None)
            &&& (!ignore_cursor ==> match doc_cursor(*doc) {
                Some(s) => page.cursor matches Some(c) && c@ == s,
                None => page.cursor == previous_cursor,
            })
            &&& page.guest_token == guest_token
            &&& page.tweets matches Some(ts) && tweet_views(ts@) == doc_tweets(*doc)
            &&& page.users matches Some(us) && user_views(us@) == doc_users(*doc)
        },
{
    let tweets: Vec<Tweet> = match get_tweets(doc) {
        Ok(ts) => ts,
        Err(e) => {
            return Err(e);
        },
    };
    let users: Vec<User> = match get_users(doc) {
        Ok(us) => us,
        Err(e) => {
            return Err(e);
        },
    };
    let next_cursor: Option<String> = if ignore_cursor {
        None
    } else {
        match get_next_cursor(doc, previous_cursor) {
            Ok(c) => c,
            Err(e) => {
                return Err(e);
            },
        }
    };
    Ok(
        TwitterResults {
            cursor: next_cursor,
            guest_token,
            tweets: Some(tweets),
            users: Some(users),
        },
    )
}

} // verus!
