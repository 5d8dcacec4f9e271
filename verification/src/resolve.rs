//! The canonical text of a post.
//!
//! A post can carry its text in several places. They are tried in a fixed
//! order and the first one that holds a text wins: the post that was reposted,
//! the post that was quoted, the post's own long text, its own primary text.
//! An embedded post is asked for its long text first and its primary text
//! second.

use vstd::prelude::*;
use crate::schema::{ExtendedTweet, ExtendedTweetView, Status, StatusView, Tweet, TweetView};

verus! {

/// `first` if it is present, else `second`.
pub open spec fn first_present<T>(first: Option<T>, second: Option<T>) -> Option<T> {
    if first is Some {
        first
    } else {
        second
    }
}

/// The long text of an optional extended record.
pub open spec fn extended_text(extended: Option<ExtendedTweetView>) -> Option<Seq<char>> {
    match extended {
        Some(e) => e.full_text,
        None => None,
    }
}

/// The text of an embedded post: its long text, else its primary text.
pub open spec fn status_text(status: Option<StatusView>) -> Option<Seq<char>> {
    match status {
        Some(s) => first_present(extended_text(s.extended_tweet), s.text),
        None => None,
    }
}

/// The canonical text of a post.
pub open spec fn canonical_text(tweet: TweetView) -> Option<Seq<char>> {
    first_present(
        status_text(tweet.retweeted_status),
        first_present(
            status_text(tweet.quoted_status),
            first_present(extended_text(tweet.extended_tweet), tweet.text),
        ),
    )
}

/// The string that `extended_text` speaks of.
pub open spec fn extended_string(extended: Option<ExtendedTweet>) -> Option<String> {
    match extended {
        Some(e) => e.full_text,
        None => None,
    }
}

/// The string that `status_text` speaks of.
pub open spec fn status_string(status: Option<Status>) -> Option<String> {
    match status {
        Some(s) => first_present(extended_string(s.extended_tweet), s.text),
        None => None,
    }
}

/// The string that `canonical_text` speaks of.
pub open spec fn canonical_string(tweet: Tweet) -> Option<String> {
    first_present(
        status_string(tweet.retweeted_status),
        first_present(
            status_string(tweet.quoted_status),
            first_present(extended_string(tweet.extended_tweet), tweet.text),
        ),
    )
}

/// The chosen string is the chosen text.
pub proof fn canonical_string_is_canonical_text(tweet: Tweet)
    ensures
        canonical_string(tweet).deep_view() == canonical_text(tweet@),
{
}

/// `first` if it is present, else `second`.
fn first_of(first: Option<String>, second: Option<String>) -> (text: Option<String>)
    ensures
        text == first_present(first, second),
{
    match first {
        Some(t) => Some(t),
        None => second,
    }
}

/// The long text of an optional extended record.
fn extended_full_text(extended: Option<ExtendedTweet>) -> (text: Option<String>)
    ensures
        text == extended_string(extended),
{
    match extended {
        Some(e) => e.full_text(),
        None => None,
    }
}

impl Status {
    /// The text of this embedded post: its long text, else its primary text.
    pub fn canonical_text(self) -> (text: Option<String>)
        ensures
            text == status_string(Some(self)),
            text.deep_view() == status_text(Some(self@)),
    {
        first_of(extended_full_text(self.extended_tweet), self.text)
    }
}

/// The text of an optional embedded post.
fn embedded_text(status: Option<Status>) -> (text: Option<String>)
    ensures
        text == status_string(status),
        text.deep_view() == status_text(status.deep_view()),
{
    match status {
        Some(s) => s.canonical_text(),
        None => None,
    }
}

/// Resolves the canonical text from the four places that can hold it.
pub fn resolve_text(
    retweeted_status: Option<Status>,
    quoted_status: Option<Status>,
    extended_tweet: Option<ExtendedTweet>,
    text: Option<String>,
) -> (resolved: Option<String>)
    ensures
        resolved == first_present(
            status_string(retweeted_status),
            first_present(
                status_string(quoted_status),
                first_present(extended_string(extended_tweet), text),
            ),
        ),
        resolved.deep_view() == first_present(
            status_text(retweeted_status.deep_view()),
            first_present(
                status_text(quoted_status.deep_view()),
                first_present(extended_text(extended_tweet.deep_view()), text.deep_view()),
            ),
        ),
{
    first_of(
        embedded_text(retweeted_status),
        first_of(embedded_text(quoted_status), first_of(extended_full_text(extended_tweet), text)),
    )
}

} // verus!
