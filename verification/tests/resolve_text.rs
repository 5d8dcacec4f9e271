use clirs::{decode, resolve_text, Digest, ExtendedTweet, Schema, Status};

fn text(s: &str) -> Option<String> {
    Some(s.to_string())
}

fn extended(s: &str) -> Option<ExtendedTweet> {
    Some(ExtendedTweet { full_text: text(s) })
}

fn digest_of(line: &str) -> Digest {
    Digest::from(decode(Schema::Strict, line).unwrap())
}

#[test]
fn long_text_wins_over_short_text() {
    let digest = digest_of(
        r#"{"text":"short","extended_tweet":{"full_text":"a much longer version"}}"#,
    );
    assert_eq!(digest.text, text("a much longer version"));
}

#[test]
fn primary_text_alone_is_the_text() {
    let digest = digest_of(r#"{"text":"only this"}"#);
    assert_eq!(digest.text, text("only this"));
}

#[test]
fn repost_wins_over_outer_fields() {
    let digest = digest_of(
        r#"{"text":"outer","extended_tweet":{"full_text":"outer long"},"retweeted_status":{"text":"inner","extended_tweet":{"full_text":"inner long"}}}"#,
    );
    assert_eq!(digest.text, text("inner long"));
    let digest = digest_of(
        r#"{"retweeted_status":{"text":"inner","extended_tweet":{"full_text":"inner long"}}}"#,
    );
    assert_eq!(digest.text, text("inner long"));
}

#[test]
fn repost_wins_over_quote() {
    let retweeted = Some(Status { text: text("reposted"), extended_tweet: None });
    let quoted = Some(Status { text: text("quoted"), extended_tweet: extended("quoted long") });
    assert_eq!(resolve_text(retweeted, quoted, extended("own long"), text("own")), text("reposted"));
}

#[test]
fn quote_wins_over_own_texts() {
    let quoted = Some(Status { text: text("quoted"), extended_tweet: extended("quoted long") });
    assert_eq!(resolve_text(None, quoted, extended("own long"), text("own")), text("quoted long"));
}

#[test]
fn embedded_post_without_text_is_passed_over() {
    let retweeted = Some(Status { text: None, extended_tweet: Some(ExtendedTweet { full_text: None }) });
    let quoted = Some(Status { text: None, extended_tweet: None });
    assert_eq!(resolve_text(retweeted, quoted, None, text("own")), text("own"));
}

#[test]
fn extended_record_without_text_falls_back() {
    let own = Some(ExtendedTweet { full_text: None });
    assert_eq!(resolve_text(None, None, own, text("own")), text("own"));
}

#[test]
fn no_text_anywhere_is_absent() {
    assert_eq!(resolve_text(None, None, None, None), None);
    let digest = digest_of("{}");
    assert_eq!(digest.text, None);
}

#[test]
fn embedded_post_prefers_its_long_text() {
    let status = Status { text: text("inner"), extended_tweet: extended("inner long") };
    assert_eq!(status.canonical_text(), text("inner long"));
    let status = Status { text: text("inner"), extended_tweet: None };
    assert_eq!(status.canonical_text(), text("inner"));
}

#[test]
fn full_text_hands_out_the_long_text() {
    assert_eq!(ExtendedTweet { full_text: text("long") }.full_text(), text("long"));
    assert_eq!(ExtendedTweet { full_text: None }.full_text(), None);
}
