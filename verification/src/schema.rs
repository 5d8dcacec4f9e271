//! The input record and the records nested in it.
//!
//! Every leaf is optional: a field that a post does not carry is `None`, and
//! that is never an error. The two containers that every post is expected to
//! have, its author and its entities, have an empty value that stands in when
//! a post comes without them.

use vstd::prelude::*;

verus! {

/// The author of a post.
#[derive(Debug, PartialEq, Eq)]
pub struct User {
    pub screen_name: Option<String>,
    pub location: Option<String>,
    pub description: Option<String>,
    pub id_str: Option<String>,
    pub verified: Option<bool>,
    pub followers_count: Option<i32>,
    pub friends_count: Option<i32>,
    pub listed_count: Option<i32>,
    pub favourites_count: Option<i32>,
    pub statuses_count: Option<i32>,
    pub created_at: Option<String>,
}

/// What a [`User`] holds, as the contracts see it.
pub ghost struct UserView {
    pub screen_name: Option<Seq<char>>,
    pub location: Option<Seq<char>>,
    pub description: Option<Seq<char>>,
    pub id_str: Option<Seq<char>>,
    pub verified: Option<bool>,
    pub followers_count: Option<i32>,
    pub friends_count: Option<i32>,
    pub listed_count: Option<i32>,
    pub favourites_count: Option<i32>,
    pub statuses_count: Option<i32>,
    pub created_at: Option<Seq<char>>,
}

impl View for User {
    type V = UserView;

    open spec fn view(&self) -> UserView {
        UserView {
            screen_name: self.screen_name.deep_view(),
            location: self.location.deep_view(),
            description: self.description.deep_view(),
            id_str: self.id_str.deep_view(),
            verified: self.verified,
            followers_count: self.followers_count,
            friends_count: self.friends_count,
            listed_count: self.listed_count,
            favourites_count: self.favourites_count,
            statuses_count: self.statuses_count,
            created_at: self.created_at.deep_view(),
        }
    }
}

/// The author with every field unset.
pub open spec fn empty_user() -> UserView {
    UserView {
        screen_name: None,
        location: None,
        description: None,
        id_str: None,
        verified: None,
        followers_count: None,
        friends_count: None,
        listed_count: None,
        favourites_count: None,
        statuses_count: None,
        created_at: None,
    }
}

/// The author that stands in for a post without one.
pub fn default_user() -> (user: User)
    ensures
        user@ == empty_user(),
{
    User {
        screen_name: None,
        location: None,
        description: None,
        id_str: None,
        verified: None,
        followers_count: None,
        friends_count: None,
        listed_count: None,
        favourites_count: None,
        statuses_count: None,
        created_at: None,
    }
}

/// A hashtag in the text of a post, with the character offsets it spans.
#[derive(Debug, PartialEq, Eq)]
pub struct Hashtag {
    pub indices: Option<Vec<i32>>,
    pub text: Option<String>,
}

/// What a [`Hashtag`] holds, as the contracts see it.
pub ghost struct HashtagView {
    pub indices: Option<Seq<i32>>,
    pub text: Option<Seq<char>>,
}

impl View for Hashtag {
    type V = HashtagView;

    open spec fn view(&self) -> HashtagView {
        HashtagView { indices: self.indices.deep_view(), text: self.text.deep_view() }
    }
}

impl DeepView for Hashtag {
    type V = HashtagView;

    open spec fn deep_view(&self) -> HashtagView {
        self@
    }
}

/// A link in the text of a post, in its three forms.
#[derive(Debug, PartialEq, Eq)]
pub struct Url {
    pub indices: Option<Vec<i32>>,
    pub url: Option<String>,
    pub display_url: Option<String>,
    pub expanded_url: Option<String>,
}

/// What a [`Url`] holds, as the contracts see it.
pub ghost struct UrlView {
    pub indices: Option<Seq<i32>>,
    pub url: Option<Seq<char>>,
    pub display_url: Option<Seq<char>>,
    pub expanded_url: Option<Seq<char>>,
}

impl View for Url {
    type V = UrlView;

    open spec fn view(&self) -> UrlView {
        UrlView {
            indices: self.indices.deep_view(),
            url: self.url.deep_view(),
            display_url: self.display_url.deep_view(),
            expanded_url: self.expanded_url.deep_view(),
        }
    }
}

impl DeepView for Url {
    type V = UrlView;

    open spec fn deep_view(&self) -> UrlView {
        self@
    }
}

/// Another account named in the text of a post.
#[derive(Debug, PartialEq, Eq)]
pub struct Mention {
    pub name: Option<String>,
    pub indices: Option<Vec<i32>>,
    pub screen_name: Option<String>,
    pub id_str: Option<String>,
}

/// What a [`Mention`] holds, as the contracts see it.
pub ghost struct MentionView {
    pub name: Option<Seq<char>>,
    pub indices: Option<Seq<i32>>,
    pub screen_name: Option<Seq<char>>,
    pub id_str: Option<Seq<char>>,
}

impl View for Mention {
    type V = MentionView;

    open spec fn view(&self) -> MentionView {
        MentionView {
            name: self.name.deep_view(),
            indices: self.indices.deep_view(),
            screen_name: self.screen_name.deep_view(),
            id_str: self.id_str.deep_view(),
        }
    }
}

impl DeepView for Mention {
    type V = MentionView;

    open spec fn deep_view(&self) -> MentionView {
        self@
    }
}

/// The hashtags, links and mentions of a post, each in the order given.
#[derive(Debug, PartialEq, Eq)]
pub struct Entities {
    pub hashtags: Option<Vec<Hashtag>>,
    pub urls: Option<Vec<Url>>,
    pub user_mentions: Option<Vec<Mention>>,
}

/// What an [`Entities`] holds, as the contracts see it.
pub ghost struct EntitiesView {
    pub hashtags: Option<Seq<HashtagView>>,
    pub urls: Option<Seq<UrlView>>,
    pub user_mentions: Option<Seq<MentionView>>,
}

impl View for Entities {
    type V = EntitiesView;

    open spec fn view(&self) -> EntitiesView {
        EntitiesView {
            hashtags: self.hashtags.deep_view(),
            urls: self.urls.deep_view(),
            user_mentions: self.user_mentions.deep_view(),
        }
    }
}

/// The entities with every sequence unset.
pub open spec fn empty_entities() -> EntitiesView {
    EntitiesView { hashtags: None, urls: None, user_mentions: None }
}

/// The entities that stand in for a post without any.
pub fn default_entities() -> (entities: Entities)
    ensures
        entities@ == empty_entities(),
{
    Entities { hashtags: None, urls: None, user_mentions: None }
}

/// The untruncated text of a post whose primary text was cut short.
#[derive(Debug, PartialEq, Eq)]
pub struct ExtendedTweet {
    pub full_text: Option<String>,
}

/// What an [`ExtendedTweet`] holds, as the contracts see it.
pub ghost struct ExtendedTweetView {
    pub full_text: Option<Seq<char>>,
}

impl View for ExtendedTweet {
    type V = ExtendedTweetView;

    open spec fn view(&self) -> ExtendedTweetView {
        ExtendedTweetView { full_text: self.full_text.deep_view() }
    }
}

impl DeepView for ExtendedTweet {
    type V = ExtendedTweetView;

    open spec fn deep_view(&self) -> ExtendedTweetView {
        self@
    }
}

impl ExtendedTweet {
    /// The long text, if the record carries one.
    pub fn full_text(self) -> (text: Option<String>)
        ensures
            text == self.full_text,
    {
        self.full_text
    }
}

/// A post embedded in another: the one that was reposted or quoted.
#[derive(Debug, PartialEq, Eq)]
pub struct Status {
    pub text: Option<String>,
    pub extended_tweet: Option<ExtendedTweet>,
}

/// What a [`Status`] holds, as the contracts see it.
pub ghost struct StatusView {
    pub text: Option<Seq<char>>,
    pub extended_tweet: Option<ExtendedTweetView>,
}

impl View for Status {
    type V = StatusView;

    open spec fn view(&self) -> StatusView {
        StatusView {
            text: self.text.deep_view(),
            extended_tweet: self.extended_tweet.deep_view(),
        }
    }
}

impl DeepView for Status {
    type V = StatusView;

    open spec fn deep_view(&self) -> StatusView {
        self@
    }
}

/// One post as it is read from a line of input.
#[derive(Debug, PartialEq, Eq)]
pub struct Tweet {
    pub id_str: Option<String>,
    pub created_at: Option<String>,
    pub user: User,
    pub entities: Entities,
    pub quote_count: Option<i32>,
    pub reply_count: Option<i32>,
    pub retweet_count: Option<i32>,
    pub favorite_count: Option<i32>,
    pub extended_tweet: Option<ExtendedTweet>,
    pub retweeted_status: Option<Status>,
    pub quoted_status: Option<Status>,
    pub text: Option<String>,
    pub source: Option<String>,
    pub lang: Option<String>,
}

/// What a [`Tweet`] holds, as the contracts see it.
pub ghost struct TweetView {
    pub id_str: Option<Seq<char>>,
    pub created_at: Option<Seq<char>>,
    pub user: UserView,
    pub entities: EntitiesView,
    pub quote_count: Option<i32>,
    pub reply_count: Option<i32>,
    pub retweet_count: Option<i32>,
    pub favorite_count: Option<i32>,
    pub extended_tweet: Option<ExtendedTweetView>,
    pub retweeted_status: Option<StatusView>,
    pub quoted_status: Option<StatusView>,
    pub text: Option<Seq<char>>,
    pub source: Option<Seq<char>>,
    pub lang: Option<Seq<char>>,
}

impl View for Tweet {
    type V = TweetView;

    open spec fn view(&self) -> TweetView {
        TweetView {
            id_str: self.id_str.deep_view(),
            created_at: self.created_at.deep_view(),
            user: self.user@,
            entities: self.entities@,
            quote_count: self.quote_count,
            reply_count: self.reply_count,
            retweet_count: self.retweet_count,
            favorite_count: self.favorite_count,
            extended_tweet: self.extended_tweet.deep_view(),
            retweeted_status: self.retweeted_status.deep_view(),
            quoted_status: self.quoted_status.deep_view(),
            text: self.text.deep_view(),
            source: self.source.deep_view(),
            lang: self.lang.deep_view(),
        }
    }
}

} // verus!
