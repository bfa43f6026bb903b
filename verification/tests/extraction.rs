//! Tests of the response extractors: structural errors, cursor
//! precedence and fallback, and the best-effort post/author policy.

use twitter_search::{get_next_cursor, get_tweets, get_users, Json, TwitterError};

fn s(text: &str) -> Json {
    Json::Str(text.to_string())
}

fn obj(fields: Vec<(&str, Json)>) -> Json {
    Json::Obj(fields.into_iter().map(|(k, v)| (k.to_string(), v)).collect())
}

fn doc_with_instructions(instructions: Vec<Json>) -> Json {
    obj(vec![("timeline", obj(vec![("instructions", Json::Arr(instructions))]))])
}

fn cursor_entry(value: &str) -> Json {
    obj(vec![(
        "content",
        obj(vec![("operation", obj(vec![("cursor", obj(vec![("value", s(value))]))]))]),
    )])
}

fn add_entries_instruction(entries: Vec<Json>) -> Json {
    obj(vec![("addEntries", obj(vec![("entries", Json::Arr(entries))]))])
}

fn replace_entry_instruction(entry: Json) -> Json {
    obj(vec![("replaceEntry", obj(vec![("entry", entry)]))])
}

fn tweet_entry(fields: Vec<(&str, Json)>) -> Json {
    obj(vec![("content", obj(vec![("tweet", obj(fields))]))])
}

fn user_entry(fields: Vec<(&str, Json)>) -> Json {
    obj(vec![("content", obj(vec![("user", obj(fields))]))])
}

#[test]
fn missing_timeline_key_is_a_structural_error() {
    let doc = obj(vec![("something_else", Json::Null)]);
    assert_eq!(get_next_cursor(&doc, None), Err(TwitterError::Cursor));
    assert!(matches!(get_tweets(&doc), Err(TwitterError::Cursor)));
    assert!(matches!(get_users(&doc), Err(TwitterError::Cursor)));
}

#[test]
fn non_object_root_is_a_structural_error() {
    let doc = Json::Arr(vec![Json::Null]);
    assert_eq!(get_next_cursor(&doc, Some("prev".to_string())), Err(TwitterError::Cursor));
    assert!(matches!(get_tweets(&doc), Err(TwitterError::Cursor)));
    assert!(matches!(get_users(&doc), Err(TwitterError::Cursor)));
}

#[test]
fn empty_timeline_is_empty_not_an_error() {
    let doc = doc_with_instructions(vec![]);
    assert_eq!(get_next_cursor(&doc, None), Ok(None));
    assert_eq!(get_tweets(&doc).unwrap().len(), 0);
    assert_eq!(get_users(&doc).unwrap().len(), 0);
}

#[test]
fn missing_instructions_layer_is_tolerated() {
    let doc = obj(vec![("timeline", obj(vec![]))]);
    assert_eq!(get_next_cursor(&doc, Some("prev".to_string())), Ok(Some("prev".to_string())));
    assert_eq!(get_tweets(&doc).unwrap().len(), 0);
    assert_eq!(get_users(&doc).unwrap().len(), 0);
}

#[test]
fn cursor_found_under_add_entries() {
    let doc = doc_with_instructions(vec![add_entries_instruction(vec![cursor_entry("c1")])]);
    assert_eq!(get_next_cursor(&doc, None), Ok(Some("c1".to_string())));
}

#[test]
fn cursor_found_under_replace_entry() {
    let doc = doc_with_instructions(vec![replace_entry_instruction(cursor_entry("c2"))]);
    assert_eq!(get_next_cursor(&doc, None), Ok(Some("c2".to_string())));
}

#[test]
fn replace_entry_cursor_wins_over_add_entries_cursor() {
    // The addEntries cursor comes first in array order; the replaceEntry
    // branch still wins by the fixed precedence.
    let doc = doc_with_instructions(vec![
        add_entries_instruction(vec![cursor_entry("from-add")]),
        replace_entry_instruction(cursor_entry("from-replace")),
    ]);
    assert_eq!(get_next_cursor(&doc, None), Ok(Some("from-replace".to_string())));
}

#[test]
fn no_cursor_in_document_falls_back_to_previous() {
    let doc = doc_with_instructions(vec![add_entries_instruction(vec![tweet_entry(vec![
        ("id", s("1")),
        ("text", s("hello")),
    ])])]);
    assert_eq!(get_next_cursor(&doc, Some("prev".to_string())), Ok(Some("prev".to_string())));
    assert_eq!(get_next_cursor(&doc, None), Ok(None));
}

#[test]
fn post_missing_id_or_text_is_excluded() {
    let doc = doc_with_instructions(vec![add_entries_instruction(vec![
        tweet_entry(vec![("text", s("no id here"))]),
        tweet_entry(vec![("id", s("2"))]),
        tweet_entry(vec![("id", s("3")), ("text", s("kept"))]),
    ])]);
    let tweets = get_tweets(&doc).unwrap();
    assert_eq!(tweets.len(), 1);
    assert_eq!(tweets[0].id, "3");
    assert_eq!(tweets[0].text, "kept");
}

#[test]
fn post_with_missing_counters_defaults_them_to_zero() {
    let doc = doc_with_instructions(vec![add_entries_instruction(vec![tweet_entry(vec![
        ("id", s("4")),
        ("text", s("minimal")),
    ])])]);
    let tweets = get_tweets(&doc).unwrap();
    assert_eq!(tweets.len(), 1);
    assert_eq!(tweets[0].favorite_count, 0);
    assert_eq!(tweets[0].retweet_count, 0);
    assert_eq!(tweets[0].reply_count, 0);
    assert_eq!(tweets[0].user_id, "");
    assert_eq!(tweets[0].created_at, "");
}

#[test]
fn post_with_all_fields_is_extracted_exactly() {
    let doc = doc_with_instructions(vec![add_entries_instruction(vec![tweet_entry(vec![
        ("id", s("10")),
        ("user_id", s("77")),
        ("text", s("full post")),
        ("created_at", s("Mon Jan 01 00:00:00 +0000 2024")),
        ("favorite_count", Json::Int(12)),
        ("retweet_count", Json::Int(3)),
        ("reply_count", Json::Int(1)),
    ])])]);
    let tweets = get_tweets(&doc).unwrap();
    assert_eq!(tweets.len(), 1);
    assert_eq!(tweets[0].id, "10");
    assert_eq!(tweets[0].user_id, "77");
    assert_eq!(tweets[0].text, "full post");
    assert_eq!(tweets[0].created_at, "Mon Jan 01 00:00:00 +0000 2024");
    assert_eq!(tweets[0].favorite_count, 12);
    assert_eq!(tweets[0].retweet_count, 3);
    assert_eq!(tweets[0].reply_count, 1);
}

#[test]
fn negative_or_non_numeric_counter_defaults_to_zero() {
    let doc = doc_with_instructions(vec![add_entries_instruction(vec![tweet_entry(vec![
        ("id", s("5")),
        ("text", s("odd counters")),
        ("favorite_count", Json::Int(-4)),
        ("retweet_count", s("many")),
    ])])]);
    let tweets = get_tweets(&doc).unwrap();
    assert_eq!(tweets.len(), 1);
    assert_eq!(tweets[0].favorite_count, 0);
    assert_eq!(tweets[0].retweet_count, 0);
}

#[test]
fn user_missing_required_fields_is_excluded() {
    let doc = doc_with_instructions(vec![add_entries_instruction(vec![
        user_entry(vec![("id", s("8"))]),
        user_entry(vec![("screen_name", s("ghost"))]),
        user_entry(vec![("id", s("9")), ("screen_name", s("kept_user"))]),
    ])]);
    let users = get_users(&doc).unwrap();
    assert_eq!(users.len(), 1);
    assert_eq!(users[0].id, "9");
    assert_eq!(users[0].screen_name, "kept_user");
    assert_eq!(users[0].name, "");
    assert_eq!(users[0].followers_count, 0);
}

#[test]
fn posts_and_users_keep_timeline_order_across_instructions() {
    let doc = doc_with_instructions(vec![
        add_entries_instruction(vec![
            tweet_entry(vec![("id", s("a")), ("text", s("first"))]),
            user_entry(vec![("id", s("u1")), ("screen_name", s("one"))]),
        ]),
        add_entries_instruction(vec![tweet_entry(vec![("id", s("b")), ("text", s("second"))])]),
    ]);
    let tweets = get_tweets(&doc).unwrap();
    let users = get_users(&doc).unwrap();
    assert_eq!(tweets.len(), 2);
    assert_eq!(tweets[0].id, "a");
    assert_eq!(tweets[1].id, "b");
    assert_eq!(users.len(), 1);
    assert_eq!(users[0].screen_name, "one");
}

#[test]
fn json_get_and_accessors_work() {
    let j = obj(vec![("k", s("v")), ("n", Json::Int(7)), ("a", Json::Arr(vec![Json::Bool(true)]))]);
    assert_eq!(j.get("k").unwrap().as_str().unwrap(), "v");
    assert_eq!(j.get("n").unwrap().as_int(), Some(7));
    assert_eq!(j.get("a").unwrap().as_arr().unwrap().len(), 1);
    assert!(j.get("missing").is_none());
    assert!(s("plain").get("k").is_none());
}
