//! The flat output record and the projection onto it.

use vstd::prelude::*;
use vstd::std_specs::convert::{FromSpec, FromSpecImpl};
use crate::resolve::{
    canonical_string, canonical_string_is_canonical_text, canonical_text, resolve_text,
};
use crate::schema::{Hashtag, HashtagView, Mention, MentionView, Tweet, TweetView, Url, UrlView};

verus! {

/// The digest of one post: its own fields, its author's fields under names of
/// their own, its entities, and its canonical text.
#[derive(Debug, PartialEq, Eq)]
pub struct Digest {
    pub id: Option<String>,
    pub created_at: Option<String>,
    pub screen_name: Option<String>,
    pub location: Option<String>,
    pub description: Option<String>,
    pub user_id: Option<String>,
    pub verified: Option<bool>,
    pub followers_count: Option<i32>,
    pub friends_count: Option<i32>,
    pub listed_count: Option<i32>,
    pub favourites_count: Option<i32>,
    pub statuses_count: Option<i32>,
    pub user_created_at: Option<String>,
    pub quote_count: Option<i32>,
    pub reply_count: Option<i32>,
    pub retweet_count: Option<i32>,
    pub favorite_count: Option<i32>,
    pub hashtags: Option<Vec<Hashtag>>,
    pub urls: Option<Vec<Url>>,
    pub user_mentions: Option<Vec<Mention>>,
    pub text: Option<String>,
    pub source: Option<String>,
    pub lang: Option<String>,
}

/// What a [`Digest`] holds, as the contracts see it.
pub ghost struct DigestView {
    pub id: Option<Seq<char>>,
    pub created_at: Option<Seq<char>>,
    pub screen_name: Option<Seq<char>>,
    pub location: Option<Seq<char>>,
    pub description: Option<Seq<char>>,
    pub user_id: Option<Seq<char>>,
    pub verified: Option<bool>,
    pub followers_count: Option<i32>,
    pub friends_count: Option<i32>,
    pub listed_count: Option<i32>,
    pub favourites_count: Option<i32>,
    pub statuses_count: Option<i32>,
    pub user_created_at: Option<Seq<char>>,
    pub quote_count: Option<i32>,
    pub reply_count: Option<i32>,
    pub retweet_count: Option<i32>,
    pub favorite_count: Option<i32>,
    pub hashtags: Option<Seq<HashtagView>>,
    pub urls: Option<Seq<UrlView>>,
    pub user_mentions: Option<Seq<MentionView>>,
    pub text: Option<Seq<char>>,
    pub source: Option<Seq<char>>,
    pub lang: Option<Seq<char>>,
}

impl View for Digest {
    type V = DigestView;

    open spec fn view(&self) -> DigestView {
        DigestView {
            id: self.id.deep_view(),
            created_at: self.created_at.deep_view(),
            screen_name: self.screen_name.deep_view(),
            location: self.location.deep_view(),
            description: self.description.deep_view(),
            user_id: self.user_id.deep_view(),
            verified: self.verified,
            followers_count: self.followers_count,
            friends_count: self.friends_count,
            listed_count: self.listed_count,
            favourites_count: self.favourites_count,
            statuses_count: self.statuses_count,
            user_created_at: self.user_created_at.deep_view(),
            quote_count: self.quote_count,
            reply_count: self.reply_count,
            retweet_count: self.retweet_count,
            favorite_count: self.favorite_count,
            hashtags: self.hashtags.deep_view(),
            urls: self.urls.deep_view(),
            user_mentions: self.user_mentions.deep_view(),
            text: self.text.deep_view(),
            source: self.source.deep_view(),
            lang: self.lang.deep_view(),
        }
    }
}

/// The digest of a post: every field carried over as it is, the author's under
/// the digest's names, and the text resolved.
pub open spec fn project(tweet: TweetView) -> DigestView {
    DigestView {
        id: tweet.id_str,
        created_at: tweet.created_at,
        screen_name: tweet.user.screen_name,
        location: tweet.user.location,
        description: tweet.user.description,
        user_id: tweet.user.id_str,
        verified: tweet.user.verified,
        followers_count: tweet.user.followers_count,
        friends_count: tweet.user.friends_count,
        listed_count: tweet.user.listed_count,
        favourites_count: tweet.user.favourites_count,
        statuses_count: tweet.user.statuses_count,
        user_created_at: tweet.user.created_at,
        quote_count: tweet.quote_count,
        reply_count: tweet.reply_count,
        retweet_count: tweet.retweet_count,
        favorite_count: tweet.favorite_count,
        hashtags: tweet.entities.hashtags,
        urls: tweet.entities.urls,
        user_mentions: tweet.entities.user_mentions,
        text: canonical_text(tweet),
        source: tweet.source,
        lang: tweet.lang,
    }
}

impl FromSpecImpl<Tweet> for Digest {
    open spec fn obeys_from_spec() -> bool {
        true
    }

    open spec fn from_spec(item: Tweet) -> Digest {
        Digest {
            id: item.id_str,
            created_at: item.created_at,
            screen_name: item.user.screen_name,
            location: item.user.location,
            description: item.user.description,
            user_id: item.user.id_str,
            verified: item.user.verified,
            followers_count: item.user.followers_count,
            friends_count: item.user.friends_count,
            listed_count: item.user.listed_count,
            favourites_count: item.user.favourites_count,
            statuses_count: item.user.statuses_count,
            user_created_at: item.user.created_at,
            quote_count: item.quote_count,
            reply_count: item.reply_count,
            retweet_count: item.retweet_count,
            favorite_count: item.favorite_count,
            hashtags: item.entities.hashtags,
            urls: item.entities.urls,
            user_mentions: item.entities.user_mentions,
            text: canonical_string(item),
            source: item.source,
            lang: item.lang,
        }
    }
}

/// The conversion from a post is the projection: the digest that `from` is
/// held to has the view that `project` gives.
pub proof fn conversion_is_projection(tweet: Tweet)
    ensures
        <Digest as FromSpec<Tweet>>::from_spec(tweet)@ == project(tweet@),
{
    canonical_string_is_canonical_text(tweet);
}

impl From<Tweet> for Digest {
    fn from(item: Tweet) -> (digest: Digest)
        ensures
            digest@ == project(item@),
    {
        let text = resolve_text(
            item.retweeted_status,
            item.quoted_status,
            item.extended_tweet,
            item.text,
        );
        Digest {
            id: item.id_str,
            created_at: item.created_at,
            screen_name: item.user.screen_name,
            location: item.user.location,
            description: item.user.description,
            user_id: item.user.id_str,
            verified: item.user.verified,
            followers_count: item.user.followers_count,
            friends_count: item.user.friends_count,
            listed_count: item.user.listed_count,
            favourites_count: item.user.favourites_count,
            statuses_count: item.user.statuses_count,
            user_created_at: item.user.created_at,
            quote_count: item.quote_count,
            reply_count: item.reply_count,
            retweet_count: item.retweet_count,
            favorite_count: item.favorite_count,
            hashtags: item.entities.hashtags,
            urls: item.entities.urls,
            user_mentions: item.entities.user_mentions,
            text,
            source: item.source,
            lang: item.lang,
        }
    }
}

} // verus!
