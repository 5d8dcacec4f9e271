//! From a line of JSON to a [`Tweet`].
//!
//! Decoding reads the document by key paths. A path that ends early, because a
//! key is missing or a value on the way is not an object, gives an absent
//! value, and so does a leaf of the wrong type. Only the document as a whole
//! can fail: when it is not JSON, or, under the strict schema, when it is JSON
//! but not an object.

use vstd::prelude::*;
use crate::json::{document, get, parse, tree_of, trees_of, JsonTree};
use crate::schema::{
    Entities, EntitiesView, ExtendedTweet, ExtendedTweetView, Hashtag, HashtagView, Mention,
    MentionView, Status, StatusView, Tweet, TweetView, Url, UrlView, User, UserView,
};

verus! {

/// How the decoder treats a document that is not an object.
#[derive(Debug, Clone, Copy, PartialEq, Eq)]
pub enum Schema {
    /// The record has a fixed shape: a document that is not an object is
    /// rejected.
    Strict,
    /// The record is whatever the key paths find: a document that is not an
    /// object decodes to a post without any field.
    Dynamic,
}

/// Why a line could not be decoded.
#[derive(Debug)]
pub enum DecodeError {
    /// The line is not JSON; the parser's report is attached.
    MalformedJson(serde_json::Error),
    /// The line is JSON, but not an object.
    SchemaMismatch,
}

/// The two ways in which decoding fails.
#[derive(Debug, Clone, Copy, PartialEq, Eq)]
pub enum DecodeFailure {
    MalformedJson,
    SchemaMismatch,
}

impl View for DecodeError {
    type V = DecodeFailure;

    open spec fn view(&self) -> DecodeFailure {
        match self {
            DecodeError::MalformedJson(_) => DecodeFailure::MalformedJson,
            DecodeError::SchemaMismatch => DecodeFailure::SchemaMismatch,
        }
    }
}

impl DecodeError {
    /// Which of the two failures this is.
    pub fn failure(&self) -> (kind: DecodeFailure)
        ensures
            kind == self@,
    {
        match self {
            DecodeError::MalformedJson(_) => DecodeFailure::MalformedJson,
            DecodeError::SchemaMismatch => DecodeFailure::SchemaMismatch,
        }
    }
}

/// The member `key` of `tree`: absent unless `tree` is an object with that key.
pub open spec fn member(tree: Option<JsonTree>, key: Seq<char>) -> Option<JsonTree> {
    match tree {
        Some(t) => t.member(key),
        None => None,
    }
}

/// What is found by following `path` down from `tree`, one key at a time.
pub open spec fn descend(tree: Option<JsonTree>, path: Seq<Seq<char>>) -> Option<JsonTree>
    decreases path.len(),
{
    if path.len() == 0 {
        tree
    } else {
        descend(member(tree, path[0]), path.skip(1))
    }
}

/// The keys that a path names.
pub open spec fn path_keys(path: Seq<&str>) -> Seq<Seq<char>> {
    Seq::new(path.len(), |i: int| path[i]@)
}

/// `tree` as a text: absent unless it is a JSON string.
pub open spec fn as_text(tree: Option<JsonTree>) -> Option<Seq<char>> {
    match tree {
        Some(JsonTree::Text(text)) => Some(text),
        _ => None,
    }
}

/// `tree` as a flag: absent unless it is a JSON boolean.
pub open spec fn as_flag(tree: Option<JsonTree>) -> Option<bool> {
    match tree {
        Some(JsonTree::Bool(flag)) => Some(flag),
        _ => None,
    }
}

/// `tree` as a count: absent unless it is an integer that fits in 32 bits.
pub open spec fn as_count(tree: Option<JsonTree>) -> Option<i32> {
    match tree {
        Some(JsonTree::Integer(n)) => if i32::MIN <= n <= i32::MAX {
            Some(n as i32)
        } else {
            None
        },
        _ => None,
    }
}

/// `tree` as a list: absent unless it is a JSON array.
pub open spec fn as_list(tree: Option<JsonTree>) -> Option<Seq<JsonTree>> {
    match tree {
        Some(JsonTree::List(items)) => Some(items),
        _ => None,
    }
}

/// Whether every item of `items` is a count.
pub open spec fn all_counts(items: Seq<JsonTree>) -> bool {
    forall|i: int| 0 <= i < items.len() ==> as_count(Some(#[trigger] items[i])) is Some
}

/// `tree` as a list of counts: absent unless it is an array of which every
/// item is a count.
pub open spec fn as_counts(tree: Option<JsonTree>) -> Option<Seq<i32>> {
    match as_list(tree) {
        Some(items) => if all_counts(items) {
            Some(Seq::new(items.len(), |i: int| as_count(Some(items[i])).unwrap()))
        } else {
            None
        },
        None => None,
    }
}

/// The author found at `tree`. Where `tree` is absent or not an object every
/// field is absent, which is the empty author.
pub open spec fn user_at(tree: Option<JsonTree>) -> UserView {
    UserView {
        screen_name: as_text(member(tree, "screen_name"@)),
        location: as_text(member(tree, "location"@)),
        description: as_text(member(tree, "description"@)),
        id_str: as_text(member(tree, "id_str"@)),
        verified: as_flag(member(tree, "verified"@)),
        followers_count: as_count(member(tree, "followers_count"@)),
        friends_count: as_count(member(tree, "friends_count"@)),
        listed_count: as_count(member(tree, "listed_count"@)),
        favourites_count: as_count(member(tree, "favourites_count"@)),
        statuses_count: as_count(member(tree, "statuses_count"@)),
        created_at: as_text(member(tree, "created_at"@)),
    }
}

/// The hashtag found at `tree`.
pub open spec fn hashtag_at(tree: Option<JsonTree>) -> HashtagView {
    HashtagView {
        indices: as_counts(member(tree, "indices"@)),
        text: as_text(member(tree, "text"@)),
    }
}

/// The link found at `tree`.
pub open spec fn url_at(tree: Option<JsonTree>) -> UrlView {
    UrlView {
        indices: as_counts(member(tree, "indices"@)),
        url: as_text(member(tree, "url"@)),
        display_url: as_text(member(tree, "display_url"@)),
        expanded_url: as_text(member(tree, "expanded_url"@)),
    }
}

/// The mention found at `tree`.
pub open spec fn mention_at(tree: Option<JsonTree>) -> MentionView {
    MentionView {
        name: as_text(member(tree, "name"@)),
        indices: as_counts(member(tree, "indices"@)),
        screen_name: as_text(member(tree, "screen_name"@)),
        id_str: as_text(member(tree, "id_str"@)),
    }
}

/// The hashtags found at `tree`: absent unless it is an array, and then one
/// hashtag for each item, in order.
pub open spec fn hashtags_at(tree: Option<JsonTree>) -> Option<Seq<HashtagView>> {
    match as_list(tree) {
        Some(items) => Some(Seq::new(items.len(), |i: int| hashtag_at(Some(items[i])))),
        None => None,
    }
}

/// The links found at `tree`, as `hashtags_at`.
pub open spec fn urls_at(tree: Option<JsonTree>) -> Option<Seq<UrlView>> {
    match as_list(tree) {
        Some(items) => Some(Seq::new(items.len(), |i: int| url_at(Some(items[i])))),
        None => None,
    }
}

/// The mentions found at `tree`, as `hashtags_at`.
pub open spec fn mentions_at(tree: Option<JsonTree>) -> Option<Seq<MentionView>> {
    match as_list(tree) {
        Some(items) => Some(Seq::new(items.len(), |i: int| mention_at(Some(items[i])))),
        None => None,
    }
}

/// The entities found at `tree`. Where `tree` is absent or not an object every
/// sequence is absent, which is the empty entities.
pub open spec fn entities_at(tree: Option<JsonTree>) -> EntitiesView {
    EntitiesView {
        hashtags: hashtags_at(member(tree, "hashtags"@)),
        urls: urls_at(member(tree, "urls"@)),
        user_mentions: mentions_at(member(tree, "user_mentions"@)),
    }
}

/// The extended record found at `tree`: absent unless it is an object.
pub open spec fn extended_at(tree: Option<JsonTree>) -> Option<ExtendedTweetView> {
    match tree {
        Some(JsonTree::Record(_)) => Some(
            ExtendedTweetView { full_text: as_text(member(tree, "full_text"@)) },
        ),
        _ => None,
    }
}

/// The embedded post found at `tree`: absent unless it is an object.
pub open spec fn status_at(tree: Option<JsonTree>) -> Option<StatusView> {
    match tree {
        Some(JsonTree::Record(_)) => Some(
            StatusView {
                text: as_text(member(tree, "text"@)),
                extended_tweet: extended_at(member(tree, "extended_tweet"@)),
            },
        ),
        _ => None,
    }
}

/// The post found at `tree`.
pub open spec fn tweet_at(tree: Option<JsonTree>) -> TweetView {
    TweetView {
        id_str: as_text(member(tree, "id_str"@)),
        created_at: as_text(member(tree, "created_at"@)),
        user: user_at(member(tree, "user"@)),
        entities: entities_at(member(tree, "entities"@)),
        quote_count: as_count(member(tree, "quote_count"@)),
        reply_count: as_count(member(tree, "reply_count"@)),
        retweet_count: as_count(member(tree, "retweet_count"@)),
        favorite_count: as_count(member(tree, "favorite_count"@)),
        extended_tweet: extended_at(member(tree, "extended_tweet"@)),
        retweeted_status: status_at(member(tree, "retweeted_status"@)),
        quoted_status: status_at(member(tree, "quoted_status"@)),
        text: as_text(member(tree, "text"@)),
        source: as_text(member(tree, "source"@)),
        lang: as_text(member(tree, "lang"@)),
    }
}

/// What decoding makes of a JSON value under `schema`.
pub open spec fn decoded_tree(schema: Schema, tree: JsonTree) -> Result<TweetView, DecodeFailure> {
    if schema == Schema::Strict && !(tree is Record) {
        Err(DecodeFailure::SchemaMismatch)
    } else {
        Ok(tweet_at(Some(tree)))
    }
}

/// What decoding makes of a parsed line under `schema`; `None` is a line that
/// is not JSON.
pub open spec fn decoded(schema: Schema, parsed: Option<JsonTree>) -> Result<
    TweetView,
    DecodeFailure,
> {
    match parsed {
        Some(tree) => decoded_tree(schema, tree),
        None => Err(DecodeFailure::MalformedJson),
    }
}

/// The tree behind an optional reference to a value.
pub open spec fn tree_at(value: Option<&serde_json::Value>) -> Option<JsonTree> {
    match value {
        Some(v) => Some(tree_of(*v)),
        None => None,
    }
}

/// The member `key` of `value`, absent where `value` is.
pub fn member_of<'a>(value: Option<&'a serde_json::Value>, key: &str) -> (found: Option<
    &'a serde_json::Value,
>)
    ensures
        tree_at(found) == member(tree_at(value), key@),
{
    match value {
        Some(v) => get(v, key),
        None => None,
    }
}

/// Follows `path` down from `value`, one key at a time.
pub fn at_path<'a>(value: &'a serde_json::Value, path: &Vec<&str>) -> (found: Option<
    &'a serde_json::Value,
>)
    ensures
        tree_at(found) == descend(Some(tree_of(*value)), path_keys(path@)),
{
    let ghost keys = path_keys(path@);
    let mut here: Option<&'a serde_json::Value> = Some(value);
    let mut i: usize = 0;
    assert(keys.skip(0) == keys);
    while i < path.len()
        invariant
            i <= path.len(),
            keys == path_keys(path@),
            descend(tree_at(here), keys.skip(i as int)) == descend(Some(tree_of(*value)), keys),
        decreases path.len() - i,
    {
        proof {
            assert(keys.skip(i as int)[0] == path@[i as int]@);
            assert(keys.skip(i as int).skip(1) == keys.skip(i as int + 1));
        }
        here = member_of(here, path[i]);
        i += 1;
    }
    here
}

fn text_of(value: Option<&serde_json::Value>) -> (text: Option<String>)
    ensures
        text.deep_view() == as_text(tree_at(value)),
{
    match value {
        Some(v) => match v.as_str() {
            Some(s) => Some(s.to_owned()),
            None => None,
        },
        None => None,
    }
}

fn flag_of(value: Option<&serde_json::Value>) -> (flag: Option<bool>)
    ensures
        flag == as_flag(tree_at(value)),
{
    match value {
        Some(v) => v.as_bool(),
        None => None,
    }
}

fn count_of(value: Option<&serde_json::Value>) -> (count: Option<i32>)
    ensures
        count == as_count(tree_at(value)),
{
    match value {
        Some(v) => match v.as_i64() {
            Some(n) => if i32::MIN as i64 <= n && n <= i32::MAX as i64 {
                Some(n as i32)
            } else {
                None
            },
            None => None,
        },
        None => None,
    }
}

fn list_of<'a>(value: Option<&'a serde_json::Value>) -> (items: Option<&'a Vec<serde_json::Value>>)
    ensures
        match items {
            Some(found) => as_list(tree_at(value)) == Some(trees_of(found@)),
            None => as_list(tree_at(value)) is None,
        },
{
    match value {
        Some(v) => v.as_array(),
        None => None,
    }
}

fn counts_of(value: Option<&serde_json::Value>) -> (counts: Option<Vec<i32>>)
    ensures
        counts.deep_view() == as_counts(tree_at(value)),
{
    let items = match list_of(value) {
        Some(items) => items,
        None => { return None; },
    };
    let ghost trees = trees_of(items@);
    let mut out: Vec<i32> = Vec::new();
    let mut i: usize = 0;
    while i < items.len()
        invariant
            i <= items.len(),
            out.len() == i,
            trees == trees_of(items@),
            forall|j: int| 0 <= j < i ==> as_count(Some(#[trigger] trees[j])) == Some(out@[j]),
            as_list(tree_at(value)) == Some(trees),
        decreases items.len() - i,
    {
        match count_of(Some(&items[i])) {
            Some(n) => { out.push(n); },
            None => {
                assert(as_count(Some(trees[i as int])) is None);
                assert(!all_counts(trees));
                return None;
            },
        }
        i += 1;
    }
    Some(out)
}

fn user_of(value: Option<&serde_json::Value>) -> (user: User)
    ensures
        user@ == user_at(tree_at(value)),
{
    User {
        screen_name: text_of(member_of(value, "screen_name")),
        location: text_of(member_of(value, "location")),
        description: text_of(member_of(value, "description")),
        id_str: text_of(member_of(value, "id_str")),
        verified: flag_of(member_of(value, "verified")),
        followers_count: count_of(member_of(value, "followers_count")),
        friends_count: count_of(member_of(value, "friends_count")),
        listed_count: count_of(member_of(value, "listed_count")),
        favourites_count: count_of(member_of(value, "favourites_count")),
        statuses_count: count_of(member_of(value, "statuses_count")),
        created_at: text_of(member_of(value, "created_at")),
    }
}

fn hashtag_of(value: Option<&serde_json::Value>) -> (hashtag: Hashtag)
    ensures
        hashtag@ == hashtag_at(tree_at(value)),
{
    Hashtag {
        indices: counts_of(member_of(value, "indices")),
        text: text_of(member_of(value, "text")),
    }
}

fn url_of(value: Option<&serde_json::Value>) -> (url: Url)
    ensures
        url@ == url_at(tree_at(value)),
{
    Url {
        indices: counts_of(member_of(value, "indices")),
        url: text_of(member_of(value, "url")),
        display_url: text_of(member_of(value, "display_url")),
        expanded_url: text_of(member_of(value, "expanded_url")),
    }
}

fn mention_of(value: Option<&serde_json::Value>) -> (mention: Mention)
    ensures
        mention@ == mention_at(tree_at(value)),
{
    Mention {
        name: text_of(member_of(value, "name")),
        indices: counts_of(member_of(value, "indices")),
        screen_name: text_of(member_of(value, "screen_name")),
        id_str: text_of(member_of(value, "id_str")),
    }
}

fn hashtags_of(value: Option<&serde_json::Value>) -> (hashtags: Option<Vec<Hashtag>>)
    ensures
        hashtags.deep_view() == hashtags_at(tree_at(value)),
{
    let items = match list_of(value) {
        Some(items) => items,
        None => { return None; },
    };
    let ghost trees = trees_of(items@);
    let mut out: Vec<Hashtag> = Vec::new();
    let mut i: usize = 0;
    while i < items.len()
        invariant
            i <= items.len(),
            out.len() == i,
            trees == trees_of(items@),
            forall|j: int| 0 <= j < i ==> (#[trigger] out@[j])@ == hashtag_at(Some(trees[j])),
        decreases items.len() - i,
    {
        out.push(hashtag_of(Some(&items[i])));
        i += 1;
    }
    Some(out)
}

fn urls_of(value: Option<&serde_json::Value>) -> (urls: Option<Vec<Url>>)
    ensures
        urls.deep_view() == urls_at(tree_at(value)),
{
    let items = match list_of(value) {
        Some(items) => items,
        None => { return None; },
    };
    let ghost trees = trees_of(items@);
    let mut out: Vec<Url> = Vec::new();
    let mut i: usize = 0;
    while i < items.len()
        invariant
            i <= items.len(),
            out.len() == i,
            trees == trees_of(items@),
            forall|j: int| 0 <= j < i ==> (#[trigger] out@[j])@ == url_at(Some(trees[j])),
        decreases items.len() - i,
    {
        out.push(url_of(Some(&items[i])));
        i += 1;
    }
    Some(out)
}

fn mentions_of(value: Option<&serde_json::Value>) -> (mentions: Option<Vec<Mention>>)
    ensures
        mentions.deep_view() == mentions_at(tree_at(value)),
{
    let items = match list_of(value) {
        Some(items) => items,
        None => { return None; },
    };
    let ghost trees = trees_of(items@);
    let mut out: Vec<Mention> = Vec::new();
    let mut i: usize = 0;
    while i < items.len()
        invariant
            i <= items.len(),
            out.len() == i,
            trees == trees_of(items@),
            forall|j: int| 0 <= j < i ==> (#[trigger] out@[j])@ == mention_at(Some(trees[j])),
        decreases items.len() - i,
    {
        out.push(mention_of(Some(&items[i])));
        i += 1;
    }
    Some(out)
}

fn entities_of(value: Option<&serde_json::Value>) -> (entities: Entities)
    ensures
        entities@ == entities_at(tree_at(value)),
{
    Entities {
        hashtags: hashtags_of(member_of(value, "hashtags")),
        urls: urls_of(member_of(value, "urls")),
        user_mentions: mentions_of(member_of(value, "user_mentions")),
    }
}

fn extended_of(value: Option<&serde_json::Value>) -> (extended: Option<ExtendedTweet>)
    ensures
        extended.deep_view() == extended_at(tree_at(value)),
{
    match value {
        Some(v) => if v.is_object() {
            Some(ExtendedTweet { full_text: text_of(member_of(value, "full_text")) })
        } else {
            None
        },
        None => None,
    }
}

fn status_of(value: Option<&serde_json::Value>) -> (status: Option<Status>)
    ensures
        status.deep_view() == status_at(tree_at(value)),
{
    match value {
        Some(v) => if v.is_object() {
            Some(
                Status {
                    text: text_of(member_of(value, "text")),
                    extended_tweet: extended_of(member_of(value, "extended_tweet")),
                },
            )
        } else {
            None
        },
        None => None,
    }
}

fn tweet_of(value: Option<&serde_json::Value>) -> (tweet: Tweet)
    ensures
        tweet@ == tweet_at(tree_at(value)),
{
    Tweet {
        id_str: text_of(member_of(value, "id_str")),
        created_at: text_of(member_of(value, "created_at")),
        user: user_of(member_of(value, "user")),
        entities: entities_of(member_of(value, "entities")),
        quote_count: count_of(member_of(value, "quote_count")),
        reply_count: count_of(member_of(value, "reply_count")),
        retweet_count: count_of(member_of(value, "retweet_count")),
        favorite_count: count_of(member_of(value, "favorite_count")),
        extended_tweet: extended_of(member_of(value, "extended_tweet")),
        retweeted_status: status_of(member_of(value, "retweeted_status")),
        quoted_status: status_of(member_of(value, "quoted_status")),
        text: text_of(member_of(value, "text")),
        source: text_of(member_of(value, "source")),
        lang: text_of(member_of(value, "lang")),
    }
}

/// Whether a value that is already JSON can fail `schema`.
fn rejects(schema: Schema, value: &serde_json::Value) -> (rejected: bool)
    ensures
        rejected == (schema == Schema::Strict && !(tree_of(*value) is Record)),
{
    match schema {
        Schema::Strict => !value.is_object(),
        Schema::Dynamic => false,
    }
}

/// Decodes a JSON value into a post.
pub fn decode_value(schema: Schema, value: &serde_json::Value) -> (r: Result<Tweet, DecodeError>)
    ensures
        match r {
            Ok(tweet) => decoded_tree(schema, tree_of(*value)) == Ok::<TweetView, DecodeFailure>(tweet@),
            Err(error) => decoded_tree(schema, tree_of(*value)) == Err::<TweetView, DecodeFailure>(error@),
        },
{
    if rejects(schema, value) {
        Err(DecodeError::SchemaMismatch)
    } else {
        Ok(tweet_of(Some(value)))
    }
}

/// Decodes a line of JSON into a post.
pub fn decode(schema: Schema, line: &str) -> (r: Result<Tweet, DecodeError>)
    ensures
        match r {
            Ok(tweet) => decoded(schema, document(line@)) == Ok::<TweetView, DecodeFailure>(tweet@),
            Err(error) => decoded(schema, document(line@)) == Err::<TweetView, DecodeFailure>(error@),
        },
{
    match parse(line) {
        Ok(value) => decode_value(schema, &value),
        Err(error) => Err(DecodeError::MalformedJson(error)),
    }
}

} // verus!
