//! From a [`Digest`] to a line of JSON.
//!
//! The digest is written as one JSON object without any white space. Every
//! field is a member of it, in the order in which [`Digest`] declares them,
//! and a field that is absent is written as `null`.

use vstd::prelude::*;
use vstd::pervasive::unreached;
use vstd::string::StringExecFns;
use crate::digest::{Digest, DigestView};
use crate::json::{json_string, one_line, quote};
use crate::schema::{Hashtag, HashtagView, Mention, MentionView, Url, UrlView};

verus! {

/// The decimal digit `d`.
pub open spec fn digit(d: nat) -> Seq<char> {
    if d == 0 {
        "0"@
    } else if d == 1 {
        "1"@
    } else if d == 2 {
        "2"@
    } else if d == 3 {
        "3"@
    } else if d == 4 {
        "4"@
    } else if d == 5 {
        "5"@
    } else if d == 6 {
        "6"@
    } else if d == 7 {
        "7"@
    } else if d == 8 {
        "8"@
    } else {
        "9"@
    }
}

/// The decimal digits of `n`, without leading zeros.
pub open spec fn digits(n: nat) -> Seq<char>
    decreases n,
{
    if n < 10 {
        digit(n)
    } else {
        digits(n / 10) + digit(n % 10)
    }
}

/// `n` in decimal, with a minus sign where it is negative.
pub open spec fn decimal(n: int) -> Seq<char> {
    if n < 0 {
        "-"@ + digits((-n) as nat)
    } else {
        digits(n as nat)
    }
}

/// The parts, with a comma between each two.
pub open spec fn joined(parts: Seq<Seq<char>>) -> Seq<char>
    decreases parts.len(),
{
    if parts.len() == 0 {
        Seq::empty()
    } else if parts.len() == 1 {
        parts[0]
    } else {
        joined(parts.drop_last()) + ","@ + parts.last()
    }
}

/// A member of an object: the key in quotes, a colon, the value.
pub open spec fn member_json(member: (Seq<char>, Seq<char>)) -> Seq<char> {
    "\""@ + member.0 + "\":"@ + member.1
}

/// An object with these members, each a key and a value already written.
pub open spec fn object_json(members: Seq<(Seq<char>, Seq<char>)>) -> Seq<char> {
    "{"@ + joined(Seq::new(members.len(), |i: int| member_json(members[i]))) + "}"@
}

/// An array with these items, each already written.
pub open spec fn array_json(items: Seq<Seq<char>>) -> Seq<char> {
    "["@ + joined(items) + "]"@
}

/// An optional text: a string literal, or `null`.
pub open spec fn text_json(text: Option<Seq<char>>) -> Seq<char> {
    match text {
        Some(t) => json_string(t),
        None => "null"@,
    }
}

/// An optional flag: `true`, `false`, or `null`.
pub open spec fn flag_json(flag: Option<bool>) -> Seq<char> {
    match flag {
        Some(true) => "true"@,
        Some(false) => "false"@,
        None => "null"@,
    }
}

/// An optional count: its decimal, or `null`.
pub open spec fn count_json(count: Option<i32>) -> Seq<char> {
    match count {
        Some(n) => decimal(n as int),
        None => "null"@,
    }
}

/// An optional list of counts: an array of decimals, or `null`.
pub open spec fn counts_json(counts: Option<Seq<i32>>) -> Seq<char> {
    match counts {
        Some(c) => array_json(Seq::new(c.len(), |i: int| decimal(c[i] as int))),
        None => "null"@,
    }
}

/// The members of a hashtag.
pub open spec fn hashtag_members(hashtag: HashtagView) -> Seq<(Seq<char>, Seq<char>)> {
    seq![("indices"@, counts_json(hashtag.indices)), ("text"@, text_json(hashtag.text))]
}

/// The members of a link.
pub open spec fn url_members(url: UrlView) -> Seq<(Seq<char>, Seq<char>)> {
    seq![
        ("indices"@, counts_json(url.indices)),
        ("url"@, text_json(url.url)),
        ("display_url"@, text_json(url.display_url)),
        ("expanded_url"@, text_json(url.expanded_url)),
    ]
}

/// The members of a mention.
pub open spec fn mention_members(mention: MentionView) -> Seq<(Seq<char>, Seq<char>)> {
    seq![
        ("name"@, text_json(mention.name)),
        ("indices"@, counts_json(mention.indices)),
        ("screen_name"@, text_json(mention.screen_name)),
        ("id_str"@, text_json(mention.id_str)),
    ]
}

/// An optional list of hashtags: an array of objects, or `null`.
pub open spec fn hashtags_json(hashtags: Option<Seq<HashtagView>>) -> Seq<char> {
    match hashtags {
        Some(h) => array_json(Seq::new(h.len(), |i: int| object_json(hashtag_members(h[i])))),
        None => "null"@,
    }
}

/// An optional list of links: an array of objects, or `null`.
pub open spec fn urls_json(urls: Option<Seq<UrlView>>) -> Seq<char> {
    match urls {
        Some(u) => array_json(Seq::new(u.len(), |i: int| object_json(url_members(u[i])))),
        None => "null"@,
    }
}

/// An optional list of mentions: an array of objects, or `null`.
pub open spec fn mentions_json(mentions: Option<Seq<MentionView>>) -> Seq<char> {
    match mentions {
        Some(m) => array_json(Seq::new(m.len(), |i: int| object_json(mention_members(m[i])))),
        None => "null"@,
    }
}

/// The members of a digest: one for each field, in the order of declaration.
pub open spec fn digest_members(digest: DigestView) -> Seq<(Seq<char>, Seq<char>)> {
    seq![
        ("id"@, text_json(digest.id)),
        ("created_at"@, text_json(digest.created_at)),
        ("screen_name"@, text_json(digest.screen_name)),
        ("location"@, text_json(digest.location)),
        ("description"@, text_json(digest.description)),
        ("user_id"@, text_json(digest.user_id)),
        ("verified"@, flag_json(digest.verified)),
        ("followers_count"@, count_json(digest.followers_count)),
        ("friends_count"@, count_json(digest.friends_count)),
        ("listed_count"@, count_json(digest.listed_count)),
        ("favourites_count"@, count_json(digest.favourites_count)),
        ("statuses_count"@, count_json(digest.statuses_count)),
        ("user_created_at"@, text_json(digest.user_created_at)),
        ("quote_count"@, count_json(digest.quote_count)),
        ("reply_count"@, count_json(digest.reply_count)),
        ("retweet_count"@, count_json(digest.retweet_count)),
        ("favorite_count"@, count_json(digest.favorite_count)),
        ("hashtags"@, hashtags_json(digest.hashtags)),
        ("urls"@, urls_json(digest.urls)),
        ("user_mentions"@, mentions_json(digest.user_mentions)),
        ("text"@, text_json(digest.text)),
        ("source"@, text_json(digest.source)),
        ("lang"@, text_json(digest.lang)),
    ]
}

/// The JSON text of a digest.
pub open spec fn digest_json(digest: DigestView) -> Seq<char> {
    object_json(digest_members(digest))
}

/// Joining one more part puts a comma before it, unless it is the first.
proof fn joined_push(parts: Seq<Seq<char>>, part: Seq<char>)
    ensures
        joined(parts.push(part)) == if parts.len() == 0 {
            part
        } else {
            joined(parts) + ","@ + part
        },
{
    assert(parts.push(part).drop_last() == parts);
}

/// The marks between the values stay on one line.
proof fn marks_are_one_line()
    ensures
        one_line("{"@),
        one_line("}"@),
        one_line("["@),
        one_line("]"@),
        one_line(","@),
        one_line("\""@),
        one_line("\":"@),
        one_line("-"@),
        one_line("null"@),
        one_line("true"@),
        one_line("false"@),
        forall|d: nat| one_line(#[trigger] digit(d)),
{
    reveal_strlit("{");
    reveal_strlit("}");
    reveal_strlit("[");
    reveal_strlit("]");
    reveal_strlit(",");
    reveal_strlit("\"");
    reveal_strlit("\":");
    reveal_strlit("-");
    reveal_strlit("null");
    reveal_strlit("true");
    reveal_strlit("false");
    reveal_strlit("0");
    reveal_strlit("1");
    reveal_strlit("2");
    reveal_strlit("3");
    reveal_strlit("4");
    reveal_strlit("5");
    reveal_strlit("6");
    reveal_strlit("7");
    reveal_strlit("8");
    reveal_strlit("9");
}

/// The keys stay on one line.
proof fn keys_are_one_line()
    ensures
        one_line("id"@),
        one_line("created_at"@),
        one_line("screen_name"@),
        one_line("location"@),
        one_line("description"@),
        one_line("user_id"@),
        one_line("verified"@),
        one_line("followers_count"@),
        one_line("friends_count"@),
        one_line("listed_count"@),
        one_line("favourites_count"@),
        one_line("statuses_count"@),
        one_line("user_created_at"@),
        one_line("quote_count"@),
        one_line("reply_count"@),
        one_line("retweet_count"@),
        one_line("favorite_count"@),
        one_line("hashtags"@),
        one_line("urls"@),
        one_line("user_mentions"@),
        one_line("text"@),
        one_line("source"@),
        one_line("lang"@),
        one_line("indices"@),
        one_line("url"@),
        one_line("display_url"@),
        one_line("expanded_url"@),
        one_line("name"@),
        one_line("id_str"@),
{
    reveal_strlit("id");
    reveal_strlit("created_at");
    reveal_strlit("screen_name");
    reveal_strlit("location");
    reveal_strlit("description");
    reveal_strlit("user_id");
    reveal_strlit("verified");
    reveal_strlit("followers_count");
    reveal_strlit("friends_count");
    reveal_strlit("listed_count");
    reveal_strlit("favourites_count");
    reveal_strlit("statuses_count");
    reveal_strlit("user_created_at");
    reveal_strlit("quote_count");
    reveal_strlit("reply_count");
    reveal_strlit("retweet_count");
    reveal_strlit("favorite_count");
    reveal_strlit("hashtags");
    reveal_strlit("urls");
    reveal_strlit("user_mentions");
    reveal_strlit("text");
    reveal_strlit("source");
    reveal_strlit("lang");
    reveal_strlit("indices");
    reveal_strlit("url");
    reveal_strlit("display_url");
    reveal_strlit("expanded_url");
    reveal_strlit("name");
    reveal_strlit("id_str");
}

/// A bracketed, comma-separated text under construction.
struct Listing {
    text: String,
    started: bool,
    opening: Ghost<Seq<char>>,
    parts: Ghost<Seq<Seq<char>>>,
}

impl Listing {
    spec fn wf(&self) -> bool {
        &&& self.text@ == self.opening@ + joined(self.parts@)
        &&& self.started == (self.parts@.len() > 0)
        &&& one_line(self.text@)
    }

    fn open(bracket: &str) -> (listing: Listing)
        requires
            one_line(bracket@),
        ensures
            listing.wf(),
            listing.opening@ == bracket@,
            listing.parts@ == Seq::<Seq<char>>::empty(),
    {
        Listing {
            text: String::from_str(bracket),
            started: false,
            opening: Ghost(bracket@),
            parts: Ghost(Seq::empty()),
        }
    }

    fn item(&mut self, item: &str)
        requires
            old(self).wf(),
            one_line(item@),
        ensures
            final(self).wf(),
            final(self).opening@ == old(self).opening@,
            final(self).parts@ == old(self).parts@.push(item@),
    {
        proof {
            marks_are_one_line();
        }
        if self.started {
            self.text.append(",");
        }
        self.text.append(item);
        self.started = true;
        proof {
            joined_push(self.parts@, item@);
            self.parts@ = self.parts@.push(item@);
            assert(self.text@ =~= self.opening@ + joined(self.parts@));
        }
    }

    fn member(&mut self, key: &str, value: &str)
        requires
            old(self).wf(),
            one_line(key@),
            one_line(value@),
        ensures
            final(self).wf(),
            final(self).opening@ == old(self).opening@,
            final(self).parts@ == old(self).parts@.push(member_json((key@, value@))),
    {
        proof {
            marks_are_one_line();
        }
        if self.started {
            self.text.append(",");
        }
        self.text.append("\"");
        self.text.append(key);
        self.text.append("\":");
        self.text.append(value);
        self.started = true;
        proof {
            joined_push(self.parts@, member_json((key@, value@)));
            self.parts@ = self.parts@.push(member_json((key@, value@)));
            assert(self.text@ =~= self.opening@ + joined(self.parts@));
        }
    }

    fn close(self, bracket: &str) -> (text: String)
        requires
            self.wf(),
            one_line(bracket@),
        ensures
            text@ == self.opening@ + joined(self.parts@) + bracket@,
            one_line(text@),
    {
        let mut text = self.text;
        text.append(bracket);
        text
    }
}

fn digit_text(d: u32) -> (text: &'static str)
    requires
        d < 10,
    ensures
        text@ == digit(d as nat),
{
    if d == 0 {
        "0"
    } else if d == 1 {
        "1"
    } else if d == 2 {
        "2"
    } else if d == 3 {
        "3"
    } else if d == 4 {
        "4"
    } else if d == 5 {
        "5"
    } else if d == 6 {
        "6"
    } else if d == 7 {
        "7"
    } else if d == 8 {
        "8"
    } else {
        "9"
    }
}

fn digits_text(n: u32) -> (text: String)
    ensures
        text@ == digits(n as nat),
        one_line(text@),
    decreases n,
{
    proof {
        marks_are_one_line();
    }
    if n < 10 {
        String::from_str(digit_text(n))
    } else {
        let mut text = digits_text(n / 10);
        text.append(digit_text(n % 10));
        text
    }
}

/// Writes a count in decimal.
pub fn decimal_text(n: i32) -> (text: String)
    ensures
        text@ == decimal(n as int),
        one_line(text@),
{
    proof {
        marks_are_one_line();
    }
    if n < 0 {
        let magnitude: i64 = -(n as i64);
        let mut text = String::from_str("-");
        text.append(digits_text(magnitude as u32).as_str());
        text
    } else {
        digits_text(n as u32)
    }
}

fn text_value(text: &Option<String>) -> (json: String)
    ensures
        json@ == text_json(text.deep_view()),
        one_line(json@),
{
    proof {
        marks_are_one_line();
    }
    match text {
        Some(t) => match quote(t.as_str()) {
            Ok(literal) => literal,
            Err(_) => unreached(),
        },
        None => String::from_str("null"),
    }
}

fn flag_value(flag: Option<bool>) -> (json: &'static str)
    ensures
        json@ == flag_json(flag),
        one_line(json@),
{
    proof {
        marks_are_one_line();
    }
    match flag {
        Some(true) => "true",
        Some(false) => "false",
        None => "null",
    }
}

fn count_value(count: Option<i32>) -> (json: String)
    ensures
        json@ == count_json(count),
        one_line(json@),
{
    proof {
        marks_are_one_line();
    }
    match count {
        Some(n) => decimal_text(n),
        None => String::from_str("null"),
    }
}

fn counts_value(counts: &Option<Vec<i32>>) -> (json: String)
    ensures
        json@ == counts_json(counts.deep_view()),
        one_line(json@),
{
    proof {
        marks_are_one_line();
    }
    match counts {
        Some(c) => {
            let mut listing = Listing::open("[");
            let mut i: usize = 0;
            while i < c.len()
                invariant
                    i <= c.len(),
                    listing.wf(),
                    listing.opening@ == "["@,
                    listing.parts@ =~= Seq::new(i as nat, |j: int| decimal(c@[j] as int)),
                decreases c.len() - i,
            {
                listing.item(decimal_text(c[i]).as_str());
                i += 1;
            }
            assert(listing.parts@ =~= Seq::new(
                c.deep_view().len(),
                |j: int| decimal(c.deep_view()[j] as int),
            ));
            listing.close("]")
        },
        None => String::from_str("null"),
    }
}

fn hashtag_value(hashtag: &Hashtag) -> (json: String)
    ensures
        json@ == object_json(hashtag_members(hashtag@)),
        one_line(json@),
{
    proof {
        marks_are_one_line();
        keys_are_one_line();
    }
    let mut listing = Listing::open("{");
    listing.member("indices", counts_value(&hashtag.indices).as_str());
    listing.member("text", text_value(&hashtag.text).as_str());
    let ghost members = hashtag_members(hashtag@);
    assert(listing.parts@ =~= Seq::new(members.len(), |i: int| member_json(members[i])));
    listing.close("}")
}

fn url_value(url: &Url) -> (json: String)
    ensures
        json@ == object_json(url_members(url@)),
        one_line(json@),
{
    proof {
        marks_are_one_line();
        keys_are_one_line();
    }
    let mut listing = Listing::open("{");
    listing.member("indices", counts_value(&url.indices).as_str());
    listing.member("url", text_value(&url.url).as_str());
    listing.member("display_url", text_value(&url.display_url).as_str());
    listing.member("expanded_url", text_value(&url.expanded_url).as_str());
    let ghost members = url_members(url@);
    assert(listing.parts@ =~= Seq::new(members.len(), |i: int| member_json(members[i])));
    listing.close("}")
}

fn mention_value(mention: &Mention) -> (json: String)
    ensures
        json@ == object_json(mention_members(mention@)),
        one_line(json@),
{
    proof {
        marks_are_one_line();
        keys_are_one_line();
    }
    let mut listing = Listing::open("{");
    listing.member("name", text_value(&mention.name).as_str());
    listing.member("indices", counts_value(&mention.indices).as_str());
    listing.member("screen_name", text_value(&mention.screen_name).as_str());
    listing.member("id_str", text_value(&mention.id_str).as_str());
    let ghost members = mention_members(mention@);
    assert(listing.parts@ =~= Seq::new(members.len(), |i: int| member_json(members[i])));
    listing.close("}")
}

fn hashtags_value(hashtags: &Option<Vec<Hashtag>>) -> (json: String)
    ensures
        json@ == hashtags_json(hashtags.deep_view()),
        one_line(json@),
{
    proof {
        marks_are_one_line();
    }
    match hashtags {
        Some(h) => {
            let mut listing = Listing::open("[");
            let mut i: usize = 0;
            while i < h.len()
                invariant
                    i <= h.len(),
                    listing.wf(),
                    listing.opening@ == "["@,
                    listing.parts@ =~= Seq::new(
                        i as nat,
                        |j: int| object_json(hashtag_members(h@[j]@)),
                    ),
                decreases h.len() - i,
            {
                listing.item(hashtag_value(&h[i]).as_str());
                i += 1;
            }
            assert(listing.parts@ =~= Seq::new(
                h.deep_view().len(),
                |j: int| object_json(hashtag_members(h.deep_view()[j])),
            ));
            listing.close("]")
        },
        None => String::from_str("null"),
    }
}

fn urls_value(urls: &Option<Vec<Url>>) -> (json: String)
    ensures
        json@ == urls_json(urls.deep_view()),
        one_line(json@),
{
    proof {
        marks_are_one_line();
    }
    match urls {
        Some(u) => {
            let mut listing = Listing::open("[");
            let mut i: usize = 0;
            while i < u.len()
                invariant
                    i <= u.len(),
                    listing.wf(),
                    listing.opening@ == "["@,
                    listing.parts@ =~= Seq::new(i as nat, |j: int| object_json(url_members(u@[j]@))),
                decreases u.len() - i,
            {
                listing.item(url_value(&u[i]).as_str());
                i += 1;
            }
            assert(listing.parts@ =~= Seq::new(
                u.deep_view().len(),
                |j: int| object_json(url_members(u.deep_view()[j])),
            ));
            listing.close("]")
        },
        None => String::from_str("null"),
    }
}

fn mentions_value(mentions: &Option<Vec<Mention>>) -> (json: String)
    ensures
        json@ == mentions_json(mentions.deep_view()),
        one_line(json@),
{
    proof {
        marks_are_one_line();
    }
    match mentions {
        Some(m) => {
            let mut listing = Listing::open("[");
            let mut i: usize = 0;
            while i < m.len()
                invariant
                    i <= m.len(),
                    listing.wf(),
                    listing.opening@ == "["@,
                    listing.parts@ =~= Seq::new(
                        i as nat,
                        |j: int| object_json(mention_members(m@[j]@)),
                    ),
                decreases m.len() - i,
            {
                listing.item(mention_value(&m[i]).as_str());
                i += 1;
            }
            assert(listing.parts@ =~= Seq::new(
                m.deep_view().len(),
                |j: int| object_json(mention_members(m.deep_view()[j])),
            ));
            listing.close("]")
        },
        None => String::from_str("null"),
    }
}

/// Writes a digest as one line of JSON, without the line's end.
pub fn encode(digest: &Digest) -> (json: String)
    ensures
        json@ == digest_json(digest@),
        one_line(json@),
{
    proof {
        marks_are_one_line();
        keys_are_one_line();
    }
    let mut listing = Listing::open("{");
    listing.member("id", text_value(&digest.id).as_str());
    listing.member("created_at", text_value(&digest.created_at).as_str());
    listing.member("screen_name", text_value(&digest.screen_name).as_str());
    listing.member("location", text_value(&digest.location).as_str());
    listing.member("description", text_value(&digest.description).as_str());
    listing.member("user_id", text_value(&digest.user_id).as_str());
    listing.member("verified", flag_value(digest.verified));
    listing.member("followers_count", count_value(digest.followers_count).as_str());
    listing.member("friends_count", count_value(digest.friends_count).as_str());
    listing.member("listed_count", count_value(digest.listed_count).as_str());
    listing.member("favourites_count", count_value(digest.favourites_count).as_str());
    listing.member("statuses_count", count_value(digest.statuses_count).as_str());
    listing.member("user_created_at", text_value(&digest.user_created_at).as_str());
    listing.member("quote_count", count_value(digest.quote_count).as_str());
    listing.member("reply_count", count_value(digest.reply_count).as_str());
    listing.member("retweet_count", count_value(digest.retweet_count).as_str());
    listing.member("favorite_count", count_value(digest.favorite_count).as_str());
    listing.member("hashtags", hashtags_value(&digest.hashtags).as_str());
    listing.member("urls", urls_value(&digest.urls).as_str());
    listing.member("user_mentions", mentions_value(&digest.user_mentions).as_str());
    listing.member("text", text_value(&digest.text).as_str());
    listing.member("source", text_value(&digest.source).as_str());
    listing.member("lang", text_value(&digest.lang).as_str());
    let ghost members = digest_members(digest@);
    assert(listing.parts@ =~= Seq::new(members.len(), |i: int| member_json(members[i])));
    listing.close("}")
}

} // verus!
