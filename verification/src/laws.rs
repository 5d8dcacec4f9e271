//! What holds of the pipeline as a whole.

use vstd::prelude::*;
use crate::decode::{
    as_count, as_counts, as_flag, as_list, as_text, decoded, decoded_tree, descend, entities_at,
    extended_at, hashtags_at, member, mentions_at, status_at, tweet_at, urls_at, user_at,
    DecodeFailure, Schema,
};
use crate::digest::{project, DigestView};
use crate::driver::{accepted, appended, digested, digested_tree, failure_ends_the_run, run};
use crate::encode::{digest_json, digest_members, member_json, object_json};
use crate::json::{document, json_string, JsonTree};
use crate::resolve::{canonical_text, extended_text, first_present, status_text};
use crate::schema::{empty_entities, empty_user, TweetView};

verus! {

/// A run appends the digests of the lines before the first one that does not
/// decode, in their order, and fails at that line if there is one.
pub proof fn run_covers_the_lines_before_the_first_failure(schema: Schema, lines: Seq<Seq<char>>)
    ensures
        run(schema, lines).output.len() <= lines.len(),
        forall|i: int|
            0 <= i < run(schema, lines).output.len() ==> accepted(schema, #[trigger] lines[i])
                && run(schema, lines).output[i] == appended(schema, lines[i]),
        match run(schema, lines).failure {
            Some((at, why)) => at == run(schema, lines).output.len() && at < lines.len()
                && digested(schema, document(lines[at])) == Err::<Seq<char>, DecodeFailure>(why),
            None => run(schema, lines).output.len() == lines.len(),
        },
    decreases lines.len(),
{
    if lines.len() > 0 {
        run_covers_the_lines_before_the_first_failure(schema, lines.drop_last());
        let before = run(schema, lines.drop_last());
        assert forall|i: int| 0 <= i < run(schema, lines).output.len() implies accepted(
            schema,
            #[trigger] lines[i],
        ) && run(schema, lines).output[i] == appended(schema, lines[i]) by {
            if i < before.output.len() {
                assert(lines.drop_last()[i] == lines[i]);
            }
        }
    }
}

/// For input of which every line decodes, the output has as many lines as the
/// input, the digest of each input line at that line's place, and the run does
/// not fail.
pub proof fn every_accepted_line_is_appended(schema: Schema, lines: Seq<Seq<char>>)
    requires
        forall|i: int| 0 <= i < lines.len() ==> accepted(schema, #[trigger] lines[i]),
    ensures
        run(schema, lines).failure is None,
        run(schema, lines).output.len() == lines.len(),
        forall|i: int|
            0 <= i < lines.len() ==> #[trigger] run(schema, lines).output[i] == appended(
                schema,
                lines[i],
            ),
{
    run_covers_the_lines_before_the_first_failure(schema, lines);
}

/// A run stops at the first line that does not decode: the lines before it
/// are in the output, the failure names that line and its reason, and the
/// lines after it make no difference.
pub proof fn run_stops_at_the_first_rejected_line(schema: Schema, lines: Seq<Seq<char>>, at: int)
    requires
        0 <= at < lines.len(),
        forall|i: int| 0 <= i < at ==> accepted(schema, #[trigger] lines[i]),
        !accepted(schema, lines[at]),
    ensures
        run(schema, lines).output.len() == at,
        forall|i: int|
            0 <= i < at ==> #[trigger] run(schema, lines).output[i] == appended(schema, lines[i]),
        run(schema, lines).failure == Some((at, digested(schema, document(lines[at]))->Err_0)),
        run(schema, lines) == run(schema, lines.take(at + 1)),
{
    run_covers_the_lines_before_the_first_failure(schema, lines);
    let short = lines.take(at + 1);
    run_covers_the_lines_before_the_first_failure(schema, short);
    assert(short[at] == lines[at]);
    assert forall|i: int| 0 <= i < at implies accepted(schema, #[trigger] short[i]) by {
        assert(short[i] == lines[i]);
    }
    failure_ends_the_run(schema, lines, at + 1);
}

/// A post is digested on its own: two lines that hold the same JSON value
/// give the same output, whatever stands around them in their runs.
pub proof fn equal_posts_give_equal_output(
    schema: Schema,
    first: Seq<Seq<char>>,
    i: int,
    second: Seq<Seq<char>>,
    j: int,
)
    requires
        0 <= i < run(schema, first).output.len(),
        0 <= j < run(schema, second).output.len(),
        document(first[i]) == document(second[j]),
    ensures
        run(schema, first).output[i] == run(schema, second).output[j],
{
    run_covers_the_lines_before_the_first_failure(schema, first);
    run_covers_the_lines_before_the_first_failure(schema, second);
}

/// Two runs over the same input, of which every line decodes, append the same
/// lines: after the second run the output holds twice as many lines as the
/// input, the first half equal to the second.
pub proof fn second_run_appends_the_same_lines(schema: Schema, lines: Seq<Seq<char>>)
    requires
        forall|i: int| 0 <= i < lines.len() ==> accepted(schema, #[trigger] lines[i]),
    ensures
        ({
            let both = run(schema, lines).output + run(schema, lines).output;
            &&& both.len() == 2 * lines.len()
            &&& forall|i: int| 0 <= i < lines.len() ==> #[trigger] both[i] == both[i + lines.len()]
        }),
{
    run_covers_the_lines_before_the_first_failure(schema, lines);
}

/// A JSON object always decodes, and under the dynamic schema every JSON
/// value does: no field, present or absent, makes a line fail.
pub proof fn fields_never_fail_a_line(schema: Schema, tree: JsonTree)
    requires
        tree is Record || schema == Schema::Dynamic,
    ensures
        decoded_tree(schema, tree) == Ok::<TweetView, DecodeFailure>(tweet_at(Some(tree))),
        decoded(schema, Some(tree)) is Ok,
        digested_tree(schema, tree) == Ok::<Seq<char>, DecodeFailure>(
            digest_json(project(tweet_at(Some(tree)))),
        ),
{
}

/// What is absent has no members, is of no type, and decodes to the empty
/// author and the empty entities.
pub proof fn absent_values_give_absent_fields(key: Seq<char>)
    ensures
        member(None, key) is None,
        as_text(None) is None,
        as_flag(None) is None,
        as_count(None) is None,
        as_list(None) is None,
        as_counts(None) is None,
        hashtags_at(None) is None,
        urls_at(None) is None,
        mentions_at(None) is None,
        extended_at(None) is None,
        status_at(None) is None,
        user_at(None) == empty_user(),
        entities_at(None) == empty_entities(),
{
}

/// A value that is not an object has no members: where an author, the
/// entities or the whole post is such a value, it decodes as if it were
/// absent.
pub proof fn values_that_are_no_objects_decode_as_absent(tree: JsonTree, key: Seq<char>)
    requires
        !(tree is Record),
    ensures
        member(Some(tree), key) is None,
        user_at(Some(tree)) == empty_user(),
        entities_at(Some(tree)) == empty_entities(),
        extended_at(Some(tree)) is None,
        status_at(Some(tree)) is None,
        tweet_at(Some(tree)) == tweet_at(None),
{
}

/// The decoder reads by key paths: the texts that a post can carry are what
/// stands at these paths of the document, and the canonical text is the first
/// of them that is present.
pub proof fn texts_are_read_by_path(tree: JsonTree)
    ensures
        ({
            let post = tweet_at(Some(tree));
            let root = Some(tree);
            &&& post.text == as_text(descend(root, seq!["text"@]))
            &&& extended_text(post.extended_tweet) == as_text(
                descend(root, seq!["extended_tweet"@, "full_text"@]),
            )
            &&& status_text(post.retweeted_status) == first_present(
                as_text(descend(root, seq!["retweeted_status"@, "extended_tweet"@, "full_text"@])),
                as_text(descend(root, seq!["retweeted_status"@, "text"@])),
            )
            &&& status_text(post.quoted_status) == first_present(
                as_text(descend(root, seq!["quoted_status"@, "extended_tweet"@, "full_text"@])),
                as_text(descend(root, seq!["quoted_status"@, "text"@])),
            )
            &&& post.user.screen_name == as_text(descend(root, seq!["user"@, "screen_name"@]))
            &&& canonical_text(post) == first_present(
                status_text(post.retweeted_status),
                first_present(
                    status_text(post.quoted_status),
                    first_present(extended_text(post.extended_tweet), post.text),
                ),
            )
        }),
{
    reveal_with_fuel(descend, 4);
    assert(seq!["text"@].skip(1) == Seq::<Seq<char>>::empty());
    assert(seq!["full_text"@].skip(1) == Seq::<Seq<char>>::empty());
    assert(seq!["screen_name"@].skip(1) == Seq::<Seq<char>>::empty());
    assert(seq!["extended_tweet"@, "full_text"@].skip(1) == seq!["full_text"@]);
    assert(seq!["user"@, "screen_name"@].skip(1) == seq!["screen_name"@]);
    assert(seq!["retweeted_status"@, "text"@].skip(1) == seq!["text"@]);
    assert(seq!["quoted_status"@, "text"@].skip(1) == seq!["text"@]);
    assert(seq!["retweeted_status"@, "extended_tweet"@, "full_text"@].skip(1) == seq![
        "extended_tweet"@,
        "full_text"@,
    ]);
    assert(seq!["quoted_status"@, "extended_tweet"@, "full_text"@].skip(1) == seq![
        "extended_tweet"@,
        "full_text"@,
    ]);
}

/// The text of the reposted post, where it has one, is the canonical text,
/// whatever else the post carries.
pub proof fn repost_text_wins(tweet: TweetView)
    requires
        status_text(tweet.retweeted_status) is Some,
    ensures
        canonical_text(tweet) == status_text(tweet.retweeted_status),
{
}

/// Without a text in a reposted post, the text of the quoted post wins.
pub proof fn quote_text_wins_next(tweet: TweetView)
    requires
        status_text(tweet.retweeted_status) is None,
        status_text(tweet.quoted_status) is Some,
    ensures
        canonical_text(tweet) == status_text(tweet.quoted_status),
{
}

/// Without a text in an embedded post, the post's long text wins over its
/// primary text, and the primary text stands where there is no long one.
pub proof fn own_text_comes_last(tweet: TweetView)
    requires
        status_text(tweet.retweeted_status) is None,
        status_text(tweet.quoted_status) is None,
    ensures
        extended_text(tweet.extended_tweet) is Some ==> canonical_text(tweet) == extended_text(
            tweet.extended_tweet,
        ),
        extended_text(tweet.extended_tweet) is None ==> canonical_text(tweet) == tweet.text,
{
}

/// The canonical text is absent only where none of the four places holds one.
pub proof fn canonical_text_is_absent_only_without_any_text(tweet: TweetView)
    ensures
        canonical_text(tweet) is None <==> status_text(tweet.retweeted_status) is None
            && status_text(tweet.quoted_status) is None && extended_text(tweet.extended_tweet) is None
            && tweet.text is None,
{
}

/// The keys of a digest's JSON object, in the order in which they are written.
pub open spec fn digest_keys() -> Seq<Seq<char>> {
    seq![
        "id"@,
        "created_at"@,
        "screen_name"@,
        "location"@,
        "description"@,
        "user_id"@,
        "verified"@,
        "followers_count"@,
        "friends_count"@,
        "listed_count"@,
        "favourites_count"@,
        "statuses_count"@,
        "user_created_at"@,
        "quote_count"@,
        "reply_count"@,
        "retweet_count"@,
        "favorite_count"@,
        "hashtags"@,
        "urls"@,
        "user_mentions"@,
        "text"@,
        "source"@,
        "lang"@,
    ]
}

/// Every digest is written with the same keys in the same order: no field is
/// ever left out.
pub proof fn every_field_is_written(digest: DigestView)
    ensures
        digest_members(digest).len() == digest_keys().len(),
        forall|i: int|
            0 <= i < digest_keys().len() ==> (#[trigger] digest_members(digest)[i]).0
                == digest_keys()[i],
        digest_json(digest) == object_json(digest_members(digest)),
{
}

/// A text that the post has is written as the string literal of that very
/// text: nothing between reading and writing changes a character of it.
pub proof fn texts_are_written_as_they_were_read(tweet: TweetView)
    ensures
        ({
            let written = digest_members(project(tweet));
            let user = tweet.user;
            &&& tweet.id_str matches Some(t) ==> written[0] == ("id"@, json_string(t))
            &&& tweet.created_at matches Some(t) ==> written[1] == ("created_at"@, json_string(t))
            &&& user.screen_name matches Some(t) ==> written[2] == ("screen_name"@, json_string(t))
            &&& user.location matches Some(t) ==> written[3] == ("location"@, json_string(t))
            &&& user.description matches Some(t) ==> written[4] == ("description"@, json_string(t))
            &&& user.id_str matches Some(t) ==> written[5] == ("user_id"@, json_string(t))
            &&& user.created_at matches Some(t) ==> written[12] == (
                "user_created_at"@,
                json_string(t),
            )
            &&& canonical_text(tweet) matches Some(t) ==> written[20] == ("text"@, json_string(t))
            &&& tweet.source matches Some(t) ==> written[21] == ("source"@, json_string(t))
            &&& tweet.lang matches Some(t) ==> written[22] == ("lang"@, json_string(t))
        }),
{
}

/// A field that the post does not have is written as `null` under its key.
pub proof fn absent_fields_are_written_as_null(tweet: TweetView)
    ensures
        ({
            let written = digest_members(project(tweet));
            let user = tweet.user;
            let entities = tweet.entities;
            &&& tweet.id_str is None ==> written[0] == ("id"@, "null"@)
            &&& tweet.created_at is None ==> written[1] == ("created_at"@, "null"@)
            &&& user.screen_name is None ==> written[2] == ("screen_name"@, "null"@)
            &&& user.location is None ==> written[3] == ("location"@, "null"@)
            &&& user.description is None ==> written[4] == ("description"@, "null"@)
            &&& user.id_str is None ==> written[5] == ("user_id"@, "null"@)
            &&& user.verified is None ==> written[6] == ("verified"@, "null"@)
            &&& user.followers_count is None ==> written[7] == ("followers_count"@, "null"@)
            &&& user.friends_count is None ==> written[8] == ("friends_count"@, "null"@)
            &&& user.listed_count is None ==> written[9] == ("listed_count"@, "null"@)
            &&& user.favourites_count is None ==> written[10] == ("favourites_count"@, "null"@)
            &&& user.statuses_count is None ==> written[11] == ("statuses_count"@, "null"@)
            &&& user.created_at is None ==> written[12] == ("user_created_at"@, "null"@)
            &&& tweet.quote_count is None ==> written[13] == ("quote_count"@, "null"@)
            &&& tweet.reply_count is None ==> written[14] == ("reply_count"@, "null"@)
            &&& tweet.retweet_count is None ==> written[15] == ("retweet_count"@, "null"@)
            &&& tweet.favorite_count is None ==> written[16] == ("favorite_count"@, "null"@)
            &&& entities.hashtags is None ==> written[17] == ("hashtags"@, "null"@)
            &&& entities.urls is None ==> written[18] == ("urls"@, "null"@)
            &&& entities.user_mentions is None ==> written[19] == ("user_mentions"@, "null"@)
            &&& canonical_text(tweet) is None ==> written[20] == ("text"@, "null"@)
            &&& tweet.source is None ==> written[21] == ("source"@, "null"@)
            &&& tweet.lang is None ==> written[22] == ("lang"@, "null"@)
        }),
        forall|i: int|
            0 <= i < digest_keys().len() ==> member_json(
                (#[trigger] digest_keys()[i], "null"@),
            ) == "\""@ + digest_keys()[i] + "\":null"@,
{
    assert forall|i: int| 0 <= i < digest_keys().len() implies member_json(
        (#[trigger] digest_keys()[i], "null"@),
    ) == "\""@ + digest_keys()[i] + "\":null"@ by {
        reveal_strlit("\":");
        reveal_strlit("null");
        reveal_strlit("\":null");
        assert("\":"@ + "null"@ =~= "\":null"@);
        assert(("\""@ + digest_keys()[i]) + "\":"@ + "null"@ =~= "\""@ + digest_keys()[i] + ("\":"@
            + "null"@));
    }
}

} // verus!
