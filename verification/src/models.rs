//! Domain types: posts, authors, the returned result page, and the error
//! taxonomy of the pipeline.

use vstd::prelude::*;

verus! {

/// A post extracted from the search response.  `id` and `text` are always
/// present (entries lacking either are skipped during extraction); the
/// remaining fields default to the empty string or zero when the response
/// omits them.
#[derive(Debug, Clone)]
pub struct Tweet {
    pub id: String,
    pub user_id: String,
    pub text: String,
    pub created_at: String,
    pub favorite_count: u64,
    pub retweet_count: u64,
    pub reply_count: u64,
}

/// The mathematical value of a [`Tweet`].
pub ghost struct TweetV {
    pub id: Seq<char>,
    pub user_id: Seq<char>,
    pub text: Seq<char>,
    pub created_at: Seq<char>,
    pub favorite_count: int,
    pub retweet_count: int,
    pub reply_count: int,
}

impl View for Tweet {
    type V = TweetV;

    open spec fn view(&self) -> TweetV {
        TweetV {
            id: self.id@,
            user_id: self.user_id@,
            text: self.text@,
            created_at: self.created_at@,
            favorite_count: self.favorite_count as int,
            retweet_count: self.retweet_count as int,
            reply_count: self.reply_count as int,
        }
    }
}

/// An author extracted from the search response.  `id` and `screen_name`
/// are always present; `name` and `followers_count` default when absent.
#[derive(Debug, Clone)]
pub struct User {
    pub id: String,
    pub screen_name: String,
    pub name: String,
    pub followers_count: u64,
}

/// The mathematical value of a [`User`].
pub ghost struct UserV {
    pub id: Seq<char>,
    pub screen_name: Seq<char>,
    pub name: Seq<char>,
    pub followers_count: int,
}

impl View for User {
    type V = UserV;

    open spec fn view(&self) -> UserV {
        UserV {
            id: self.id@,
            screen_name: self.screen_name@,
            name: self.name@,
            followers_count: self.followers_count as int,
        }
    }
}

/// The views of a sequence of posts.
pub open spec fn tweet_views(ts: Seq<Tweet>) -> Seq<TweetV> {
    ts.map_values(|t: Tweet| t@)
}

/// The views of a sequence of authors.
pub open spec fn user_views(us: Seq<User>) -> Seq<UserV> {
    us.map_values(|u: User| u@)
}

/// One page of normalized search results: the terminal artifact of a run.
#[derive(Debug)]
pub struct TwitterResults {
    pub cursor: Option<String>,
    pub guest_token: String,
    pub tweets: Option<Vec<Tweet>>,
    pub users: Option<Vec<User>>,
}

/// The error taxonomy of the pipeline.
///
/// * `Auth` — guest-token acquisition failed or the token field was absent.
/// * `Http` — a non-2xx status from either outbound call.
/// * `Decode` — the response body was not valid JSON.
/// * `Cursor` — the top-level envelope shape was unrecognized (not an
///   object, or missing the timeline key).
#[derive(Debug, Clone, Copy, PartialEq, Eq, Structural)]
pub enum TwitterError {
    Auth,
    Http { status: u16 },
    Decode,
    Cursor,
}

} // verus!
