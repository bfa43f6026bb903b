//! Extraction of the cursor, posts and authors from the search response.
//!
//! The endpoint nests its results inside a timeline envelope:
//!
//! ```text
//! { "timeline": { "instructions": [ instruction, ... ] } }
//! ```
//!
//! An instruction may carry `"addEntries": { "entries": [ entry, ... ] }`
//! or `"replaceEntry": { "entry": entry }`.  An entry's `"content"` object
//! holds one of:
//!
//! * `"operation": { "cursor": { "value": "..." } }` — a pagination cursor;
//! * `"tweet": { ... }` — a post;
//! * `"user": { ... }` — an author.
//!
//! A "next page" cursor may therefore appear in two places.  The fixed
//! precedence is: a cursor found under any `replaceEntry` branch wins over
//! every cursor found under an `addEntries` branch; within one branch kind
//! the first instruction (and, for `addEntries`, the first entry) in array
//! order wins.  This mirrors the remote API's own replace-over-append
//! semantics and is deliberately kept stable.
//!
//! Extraction is tolerant: a missing sub-tree yields an empty result or a
//! caller-supplied fallback.  Only an unrecognizable top-level envelope
//! (the document is not an object with a `"timeline"` key) is an error.

use vstd::prelude::*;

use crate::json::{opt_arr, opt_get, opt_str, spec_get, Json};
use crate::models::{tweet_views, user_views, Tweet, TweetV, TwitterError, User, UserV};

verus! {

/// The document's top-level envelope is recognizable: an object carrying
/// the timeline key.  Every extractor fails with `TwitterError::Cursor`
/// exactly when this is false.
pub open spec fn doc_ok(doc: Json) -> bool {
    spec_get(doc, "timeline"@) is Some
}

/// The timeline's instruction list; empty when any layer is absent.
pub open spec fn instructions_of(doc: Json) -> Seq<Json> {
    match opt_arr(opt_get(spec_get(doc, "timeline"@), "instructions"@)) {
        Some(items) => items,
        None => Seq::empty(),
    }
}

/// The cursor value an entry carries, if any.
pub open spec fn entry_cursor(e: Json) -> Option<Seq<char>> {
    opt_str(
        opt_get(opt_get(opt_get(spec_get(e, "content"@), "operation"@), "cursor"@), "value"@),
    )
}

/// The cursor under an instruction's `replaceEntry` branch, if any.
pub open spec fn replace_cursor(instr: Json) -> Option<Seq<char>> {
    match opt_get(spec_get(instr, "replaceEntry"@), "entry"@) {
        Some(e) => entry_cursor(e),
        None => None,
    }
}

/// The entries under an instruction's `addEntries` branch; empty when any
/// layer is absent.
pub open spec fn add_entries_of(instr: Json) -> Seq<Json> {
    match opt_arr(opt_get(spec_get(instr, "addEntries"@), "entries"@)) {
        Some(items) => items,
        None => Seq::empty(),
    }
}

/// The first cursor among `entries`, searching from index `i`.
pub open spec fn first_entry_cursor_from(entries: Seq<Json>, i: int) -> Option<Seq<char>>
    decreases entries.len() - i,
{
    if i < 0 || i >= entries.len() {
        None
    } else {
        match entry_cursor(entries[i]) {
            Some(c) => Some(c),
            None => first_entry_cursor_from(entries, i + 1),
        }
    }
}

/// The first `replaceEntry` cursor among `instrs`, searching from index `i`.
pub open spec fn first_replace_cursor_from(instrs: Seq<Json>, i: int) -> Option<Seq<char>>
    decreases instrs.len() - i,
{
    if i < 0 || i >= instrs.len() {
        None
    } else {
        match replace_cursor(instrs[i]) {
            Some(c) => Some(c),
            None => first_replace_cursor_from(instrs, i + 1),
        }
    }
}

/// The first `addEntries` cursor among `instrs`, searching from index `i`.
pub open spec fn first_add_cursor_from(instrs: Seq<Json>, i: int) -> Option<Seq<char>>
    decreases instrs.len() - i,
{
    if i < 0 || i >= instrs.len() {
        None
    } else {
        match first_entry_cursor_from(add_entries_of(instrs[i]), 0) {
            Some(c) => Some(c),
            None => first_add_cursor_from(instrs, i + 1),
        }
    }
}

/// The next-page cursor the document declares, under the fixed precedence:
/// every `replaceEntry` location is consulted before any `addEntries`
/// location.
pub open spec fn doc_cursor(doc: Json) -> Option<Seq<char>> {
    match first_replace_cursor_from(instructions_of(doc), 0) {
        Some(c) => Some(c),
        None => first_add_cursor_from(instructions_of(doc), 0),
    }
}

/// Precedence law: whenever any `replaceEntry` branch of the document
/// declares a cursor, the document's cursor is exactly that one — a
/// cursor under an `addEntries` branch never wins, whatever its position
/// in the instruction array.
pub proof fn lemma_replace_cursor_precedence(doc: Json)
    requires
        first_replace_cursor_from(instructions_of(doc), 0) is Some,
    ensures
        doc_cursor(doc) == first_replace_cursor_from(instructions_of(doc), 0),
{
}

/// Extracts the cursor an entry carries, if any.
fn entry_cursor_exec(e: &Json) -> (r: Option<String>)
    ensures
        match r {
            Some(c) => entry_cursor(*e) == Some(c@),
            None => entry_cursor(*e) is None,
        },
{
    match e.get("content") {
        Some(content) => match content.get("operation") {
            Some(op) => match op.get("cursor") {
                Some(cur) => match cur.get("value") {
                    Some(v) => match v.as_str() {
                        Some(s) => Some(s.clone()),
                        None => None,
                    },
                    None => None,
                },
                None => None,
            },
            None => None,
        },
        None => None,
    }
}

/// Extracts the cursor under an instruction's `replaceEntry` branch.
fn replace_cursor_exec(instr: &Json) -> (r: Option<String>)
    ensures
        match r {
            Some(c) => replace_cursor(*instr) == Some(c@),
            None => replace_cursor(*instr) is None,
        },
{
    match instr.get("replaceEntry") {
        Some(rep) => match rep.get("entry") {
            Some(e) => entry_cursor_exec(e),
            None => None,
        },
        None => None,
    }
}

/// Extracts the first cursor under an instruction's `addEntries` branch.
#[verifier::loop_isolation(false)]
fn add_cursor_exec(instr: &Json) -> (r: Option<String>)
    ensures
        match r {
            Some(c) => first_entry_cursor_from(add_entries_of(*instr), 0) == Some(c@),
            None => first_entry_cursor_from(add_entries_of(*instr), 0) is None,
        },
{
    let entries: &Vec<Json> = match instr.get("addEntries") {
        Some(add) => match add.get("entries") {
            Some(j) => match j.as_arr() {
                Some(items) => items,
                None => {
                    return None;
                },
            },
            None => {
                return None;
            },
        },
        None => {
            return None;
        },
    };
    let mut j: usize = 0;
    while j < entries.len()
        invariant
            0 <= j <= entries@.len(),
            entries@ == add_entries_of(*instr),
            first_entry_cursor_from(entries@, 0) == first_entry_cursor_from(entries@, j as int),
        decreases entries@.len() - j,
    {
        match entry_cursor_exec(&entries[j]) {
            Some(c) => {
                return Some(c);
            },
            None => {},
        }
        j += 1;
    }
    None
}

/// Scans the document for a next-page cursor under the fixed precedence
/// (`replaceEntry` locations before `addEntries` locations); when none is
/// found, falls back to the caller-supplied cursor.  Fails exactly when
/// the top-level envelope is unrecognizable.
#[verifier::loop_isolation(false)]
pub fn get_next_cursor(doc: &Json, previous_cursor: Option<String>) -> (r: Result<
    Option<String>,
    TwitterError,
>)
    ensures
        doc_ok(*doc) ==> r is Ok,
        !doc_ok(*doc) ==> (r matches Err(e) && e == TwitterError::Cursor),
        r matches Ok(c) ==> match doc_cursor(*doc) {
            Some(s) => c matches Some(cs) && cs@ == s,
            None => c == previous_cursor,
        },
{
    let timeline: &Json = match doc.get("timeline") {
        Some(t) => t,
        None => {
            return Err(TwitterError::Cursor);
        },
    };
    let instrs: &Vec<Json> = match timeline.get("instructions") {
        Some(j) => match j.as_arr() {
            Some(items) => items,
            None => {
                return Ok(previous_cursor);
            },
        },
        None => {
            return Ok(previous_cursor);
        },
    };
    let mut i: usize = 0;
    while i < instrs.len()
        invariant
            0 <= i <= instrs@.len(),
            instrs@ == instructions_of(*doc),
            first_replace_cursor_from(instrs@, 0) == first_replace_cursor_from(
                instrs@,
                i as int,
            ),
        decreases instrs@.len() - i,
    {
        match replace_cursor_exec(&instrs[i]) {
            Some(c) => {
                return Ok(Some(c));
            },
            None => {},
        }
        i += 1;
    }
    let mut i2: usize = 0;
    while i2 < instrs.len()
        invariant
            0 <= i2 <= instrs@.len(),
            instrs@ == instructions_of(*doc),
            first_replace_cursor_from(instrs@, 0) is None,
            first_add_cursor_from(instrs@, 0) == first_add_cursor_from(instrs@, i2 as int),
        decreases instrs@.len() - i2,
    {
        match add_cursor_exec(&instrs[i2]) {
            Some(c) => {
                return Ok(Some(c));
            },
            None => {},
        }
        i2 += 1;
    }
    Ok(previous_cursor)
}

/// The post object an entry carries, if any.
pub open spec fn entry_tweet(e: Json) -> Option<Json> {
    opt_get(spec_get(e, "content"@), "tweet"@)
}

/// The author object an entry carries, if any.
pub open spec fn entry_user(e: Json) -> Option<Json> {
    opt_get(spec_get(e, "content"@), "user"@)
}

/// Best-effort string field: its characters when present, empty otherwise.
pub open spec fn str_or_empty(o: Option<Json>) -> Seq<char> {
    match opt_str(o) {
        Some(s) => s,
        None => Seq::empty(),
    }
}

/// Best-effort counter field: its value when present and non-negative,
/// zero otherwise.
pub open spec fn count_or_zero(o: Option<Json>) -> int {
    match o {
        Some(j) => match j {
            Json::Int(n) => if n >= 0 {
                n as int
            } else {
                0
            },
            _ => 0,
        },
        None => 0,
    }
}

/// The post an entry resolves to.  `None` when the entry carries no post
/// object or the post lacks its id or its text; every other field is
/// defaulted rather than failing.
pub open spec fn tweet_of_entry(e: Json) -> Option<TweetV> {
    match entry_tweet(e) {
        Some(t) => match opt_str(spec_get(t, "id"@)) {
            Some(id) => match opt_str(spec_get(t, "text"@)) {
                Some(text) => Some(
                    TweetV {
                        id,
                        user_id: str_or_empty(spec_get(t, "user_id"@)),
                        text,
                        created_at: str_or_empty(spec_get(t, "created_at"@)),
                        favorite_count: count_or_zero(spec_get(t, "favorite_count"@)),
                        retweet_count: count_or_zero(spec_get(t, "retweet_count"@)),
                        reply_count: count_or_zero(spec_get(t, "reply_count"@)),
                    },
                ),
                None => None,
            },
            None => None,
        },
        None => None,
    }
}

/// The author an entry resolves to.  `None` when the entry carries no
/// author object or the author lacks its id or its handle.
pub open spec fn user_of_entry(e: Json) -> Option<UserV> {
    match entry_user(e) {
        Some(u) => match opt_str(spec_get(u, "id"@)) {
            Some(id) => match opt_str(spec_get(u, "screen_name"@)) {
                Some(screen_name) => Some(
                    UserV {
                        id,
                        screen_name,
                        name: str_or_empty(spec_get(u, "name"@)),
                        followers_count: count_or_zero(spec_get(u, "followers_count"@)),
                    },
                ),
                None => None,
            },
            None => None,
        },
        None => None,
    }
}

/// The posts among `entries`, in order, from index `i` on.
pub open spec fn tweets_from(entries: Seq<Json>, i: int) -> Seq<TweetV>
    decreases entries.len() - i,
{
    if i < 0 || i >= entries.len() {
        Seq::empty()
    } else {
        match tweet_of_entry(entries[i]) {
            Some(t) => seq![t] + tweets_from(entries, i + 1),
            None => tweets_from(entries, i + 1),
        }
    }
}

/// The authors among `entries`, in order, from index `i` on.
pub open spec fn users_from(entries: Seq<Json>, i: int) -> Seq<UserV>
    decreases entries.len() - i,
{
    if i < 0 || i >= entries.len() {
        Seq::empty()
    } else {
        match user_of_entry(entries[i]) {
            Some(u) => seq![u] + users_from(entries, i + 1),
            None => users_from(entries, i + 1),
        }
    }
}

/// The posts of all `addEntries` branches of `instrs`, from index `i` on.
pub open spec fn doc_tweets_from(instrs: Seq<Json>, i: int) -> Seq<TweetV>
    decreases instrs.len() - i,
{
    if i < 0 || i >= instrs.len() {
        Seq::empty()
    } else {
        tweets_from(add_entries_of(instrs[i]), 0) + doc_tweets_from(instrs, i + 1)
    }
}

/// The authors of all `addEntries` branches of `instrs`, from index `i` on.
pub open spec fn doc_users_from(instrs: Seq<Json>, i: int) -> Seq<UserV>
    decreases instrs.len() - i,
{
    if i < 0 || i >= instrs.len() {
        Seq::empty()
    } else {
        users_from(add_entries_of(instrs[i]), 0) + doc_users_from(instrs, i + 1)
    }
}

/// Every post the document's timeline carries, in timeline order.
pub open spec fn doc_tweets(doc: Json) -> Seq<TweetV> {
    doc_tweets_from(instructions_of(doc), 0)
}

/// Every author the document's timeline carries, in timeline order.
pub open spec fn doc_users(doc: Json) -> Seq<UserV> {
    doc_users_from(instructions_of(doc), 0)
}

/// Best-effort read of a string field: a copy when present, `""` otherwise.
fn str_field(t: &Json, key: &str) -> (r: String)
    ensures
        r@ == str_or_empty(spec_get(*t, key@)),
{
    match t.get(key) {
        Some(j) => match j.as_str() {
            Some(s) => s.clone(),
            None => String::new(),
        },
        None => String::new(),
    }
}

/// Best-effort read of a counter field: its value when present and
/// non-negative, zero otherwise.
fn count_field(t: &Json, key: &str) -> (r: u64)
    ensures
        r as int == count_or_zero(spec_get(*t, key@)),
{
    match t.get(key) {
        Some(j) => match j.as_int() {
            Some(n) => if n >= 0 {
                n as u64
            } else {
                0
            },
            None => 0,
        },
        None => 0,
    }
}

/// Builds the post an entry resolves to, skipping entries that lack a
/// post object, an id or a text.
fn tweet_from_entry(e: &Json) -> (r: Option<Tweet>)
    ensures
        match r {
            Some(t) => tweet_of_entry(*e) == Some(t@),
            None => tweet_of_entry(*e) is None,
        },
{
    let t: &Json = match e.get("content") {
        Some(content) => match content.get("tweet") {
            Some(t) => t,
            None => {
                return None;
            },
        },
        None => {
            return None;
        },
    };
    let id: String = match t.get("id") {
        Some(j) => match j.as_str() {
            Some(s) => s.clone(),
            None => {
                return None;
            },
        },
        None => {
            return None;
        },
    };
    let text: String = match t.get("text") {
        Some(j) => match j.as_str() {
            Some(s) => s.clone(),
            None => {
                return None;
            },
        },
        None => {
            return None;
        },
    };
    Some(
        Tweet {
            id,
            user_id: str_field(t, "user_id"),
            text,
            created_at: str_field(t, "created_at"),
            favorite_count: count_field(t, "favorite_count"),
            retweet_count: count_field(t, "retweet_count"),
            reply_count: count_field(t, "reply_count"),
        },
    )
}

/// Builds the author an entry resolves to, skipping entries that lack an
/// author object, an id or a handle.
fn user_from_entry(e: &Json) -> (r: Option<User>)
    ensures
        match r {
            Some(u) => user_of_entry(*e) == Some(u@),
            None => user_of_entry(*e) is None,
        },
{
    let u: &Json = match e.get("content") {
        Some(content) => match content.get("user") {
            Some(u) => u,
            None => {
                return None;
            },
        },
        None => {
            return None;
        },
    };
    let id: String = match u.get("id") {
        Some(j) => match j.as_str() {
            Some(s) => s.clone(),
            None => {
                return None;
            },
        },
        None => {
            return None;
        },
    };
    let screen_name: String = match u.get("screen_name") {
        Some(j) => match j.as_str() {
            Some(s) => s.clone(),
            None => {
                return None;
            },
        },
        None => {
            return None;
        },
    };
    Some(
        User {
            id,
            screen_name,
            name: str_field(u, "name"),
            followers_count: count_field(u, "followers_count"),
        },
    )
}

/// Walks every entry of the timeline and collects the posts it can
/// resolve, in timeline order; entries that are not post-shaped or lack a
/// required field are skipped.  Fails exactly when the top-level envelope
/// is unrecognizable.
#[verifier::loop_isolation(false)]
pub fn get_tweets(doc: &Json) -> (r: Result<Vec<Tweet>, TwitterError>)
    ensures
        doc_ok(*doc) ==> r is Ok,
        !doc_ok(*doc) ==> (r matches Err(e) && e == TwitterError::Cursor),
        r matches Ok(ts) ==> tweet_views(ts@) == doc_tweets(*doc),
{
    let timeline: &Json = match doc.get("timeline") {
        Some(t) => t,
        None => {
            return Err(TwitterError::Cursor);
        },
    };
    let mut out: Vec<Tweet> = Vec::new();
    proof {
        assert(tweet_views(out@) =~= Seq::<TweetV>::empty());
    }
    let instrs: &Vec<Json> = match timeline.get("instructions") {
        Some(j) => match j.as_arr() {
            Some(items) => items,
            None => {
                return Ok(out);
            },
        },
        None => {
            return Ok(out);
        },
    };
    let mut i: usize = 0;
    proof {
        assert(tweet_views(out@) + doc_tweets_from(instrs@, 0) =~= doc_tweets(*doc));
    }
    while i < instrs.len()
        invariant
            0 <= i <= instrs@.len(),
            instrs@ == instructions_of(*doc),
            tweet_views(out@) + doc_tweets_from(instrs@, i as int) == doc_tweets(*doc),
        decreases instrs@.len() - i,
    {
        let entries_opt: Option<&Vec<Json>> = match instrs[i].get("addEntries") {
            Some(add) => match add.get("entries") {
                Some(j) => j.as_arr(),
                None => None,
            },
            None => None,
        };
        match entries_opt {
            Some(entries) => {
                proof {
                    assert(doc_tweets_from(instrs@, i as int) == tweets_from(entries@, 0)
                        + doc_tweets_from(instrs@, i as int + 1));
                    assert(tweet_views(out@) + (tweets_from(entries@, 0) + doc_tweets_from(
                        instrs@,
                        i as int + 1,
                    )) =~= tweet_views(out@) + tweets_from(entries@, 0) + doc_tweets_from(
                        instrs@,
                        i as int + 1,
                    ));
                }
                let mut j: usize = 0;
                while j < entries.len()
                    invariant
                        0 <= j <= entries@.len(),
                        i < instrs@.len(),
                        entries@ == add_entries_of(instrs@[i as int]),
                        tweet_views(out@) + tweets_from(entries@, j as int) + doc_tweets_from(
                            instrs@,
                            i as int + 1,
                        ) == doc_tweets(*doc),
                    decreases entries@.len() - j,
                {
                    match tweet_from_entry(&entries[j]) {
                        Some(t) => {
                            proof {
                                assert(tweet_views(out@.push(t)) =~= tweet_views(out@).push(t@));
                                assert(tweet_views(out@).push(t@) + tweets_from(
                                    entries@,
                                    j as int + 1,
                                ) + doc_tweets_from(instrs@, i as int + 1) =~= tweet_views(out@)
                                    + tweets_from(entries@, j as int) + doc_tweets_from(
                                    instrs@,
                                    i as int + 1,
                                ));
                            }
                            out.push(t);
                        },
                        None => {},
                    }
                    j += 1;
                }
                proof {
                    assert(tweets_from(entries@, j as int) =~= Seq::<TweetV>::empty());
                    assert(tweet_views(out@) + Seq::<TweetV>::empty() + doc_tweets_from(
                        instrs@,
                        i as int + 1,
                    ) =~= tweet_views(out@) + doc_tweets_from(instrs@, i as int + 1));
                }
            },
            None => {
                proof {
                    assert(add_entries_of(instrs@[i as int]) =~= Seq::<Json>::empty());
                    assert(tweets_from(Seq::<Json>::empty(), 0) =~= Seq::<TweetV>::empty());
                    assert(doc_tweets_from(instrs@, i as int) == Seq::<TweetV>::empty()
                        + doc_tweets_from(instrs@, i as int + 1));
                    assert(tweet_views(out@) + (Seq::<TweetV>::empty() + doc_tweets_from(
                        instrs@,
                        i as int + 1,
                    )) =~= tweet_views(out@) + doc_tweets_from(instrs@, i as int + 1));
                }
            },
        }
        i += 1;
    }
    proof {
        assert(doc_tweets_from(instrs@, i as int) =~= Seq::<TweetV>::empty());
        assert(tweet_views(out@) + Seq::<TweetV>::empty() =~= tweet_views(out@));
    }
    Ok(out)
}

/// Walks every entry of the timeline and collects the authors it can
/// resolve, in timeline order; entries that are not author-shaped or lack
/// a required field are skipped.  Fails exactly when the top-level
/// envelope is unrecognizable.
#[verifier::loop_isolation(false)]
pub fn get_users(doc: &Json) -> (r: Result<Vec<User>, TwitterError>)
    ensures
        doc_ok(*doc) ==> r is Ok,
        !doc_ok(*doc) ==> (r matches Err(e) && e == TwitterError::Cursor),
        r matches Ok(us) ==> user_views(us@) == doc_users(*doc),
{
    let timeline: &Json = match doc.get("timeline") {
        Some(t) => t,
        None => {
            return Err(TwitterError::Cursor);
        },
    };
    let mut out: Vec<User> = Vec::new();
    proof {
        assert(user_views(out@) =~= Seq::<UserV>::empty());
    }
    let instrs: &Vec<Json> = match timeline.get("instructions") {
        Some(j) => match j.as_arr() {
            Some(items) => items,
            None => {
                return Ok(out);
            },
        },
        None => {
            return Ok(out);
        },
    };
    let mut i: usize = 0;
    proof {
        assert(user_views(out@) + doc_users_from(instrs@, 0) =~= doc_users(*doc));
    }
    while i < instrs.len()
        invariant
            0 <= i <= instrs@.len(),
            instrs@ == instructions_of(*doc),
            user_views(out@) + doc_users_from(instrs@, i as int) == doc_users(*doc),
        decreases instrs@.len() - i,
    {
        let entries_opt: Option<&Vec<Json>> = match instrs[i].get("addEntries") {
            Some(add) => match add.get("entries") {
                Some(j) => j.as_arr(),
                None => None,
            },
            None => None,
        };
        match entries_opt {
            Some(entries) => {
                proof {
                    assert(doc_users_from(instrs@, i as int) == users_from(entries@, 0)
                        + doc_users_from(instrs@, i as int + 1));
                    assert(user_views(out@) + (users_from(entries@, 0) + doc_users_from(
                        instrs@,
                        i as int + 1,
                    )) =~= user_views(out@) + users_from(entries@, 0) + doc_users_from(
                        instrs@,
                        i as int + 1,
                    ));
                }
                let mut j: usize = 0;
                while j < entries.len()
                    invariant
                        0 <= j <= entries@.len(),
                        i < instrs@.len(),
                        entries@ == add_entries_of(instrs@[i as int]),
                        user_views(out@) + users_from(entries@, j as int) + doc_users_from(
                            instrs@,
                            i as int + 1,
                        ) == doc_users(*doc),
                    decreases entries@.len() - j,
                {
                    match user_from_entry(&entries[j]) {
                        Some(u) => {
                            proof {
                                assert(user_views(out@.push(u)) =~= user_views(out@).push(u@));
                                assert(user_views(out@).push(u@) + users_from(
                                    entries@,
                                    j as int + 1,
                                ) + doc_users_from(instrs@, i as int + 1) =~= user_views(out@)
                                    + users_from(entries@, j as int) + doc_users_from(
                                    instrs@,
                                    i as int + 1,
                                ));
                            }
                            out.push(u);
                        },
                        None => {},
                    }
                    j += 1;
                }
                proof {
                    assert(users_from(entries@, j as int) =~= Seq::<UserV>::empty());
                    assert(user_views(out@) + Seq::<UserV>::empty() + doc_users_from(
                        instrs@,
                        i as int + 1,
                    ) =~= user_views(out@) + doc_users_from(instrs@, i as int + 1));
                }
            },
            None => {
                proof {
                    assert(add_entries_of(instrs@[i as int]) =~= Seq::<Json>::empty());
                    assert(users_from(Seq::<Json>::empty(), 0) =~= Seq::<UserV>::empty());
                    assert(doc_users_from(instrs@, i as int) == Seq::<UserV>::empty()
                        + doc_users_from(instrs@, i as int + 1));
                    assert(user_views(out@) + (Seq::<UserV>::empty() + doc_users_from(
                        instrs@,
                        i as int + 1,
                    )) =~= user_views(out@) + doc_users_from(instrs@, i as int + 1));
                }
            },
        }
        i += 1;
    }
    proof {
        assert(doc_users_from(instrs@, i as int) =~= Seq::<UserV>::empty());
        assert(user_views(out@) + Seq::<UserV>::empty() =~= user_views(out@));
    }
    Ok(out)
}

} // verus!
