use clirs::{decimal_text, decode, encode, Digest, Hashtag, Mention, Schema, Url};

fn text(s: &str) -> Option<String> {
    Some(s.to_string())
}

fn empty_digest() -> Digest {
    Digest::from(decode(Schema::Strict, "{}").unwrap())
}

const ALL_NULL: &str = r#"{"id":null,"created_at":null,"screen_name":null,"location":null,"description":null,"user_id":null,"verified":null,"followers_count":null,"friends_count":null,"listed_count":null,"favourites_count":null,"statuses_count":null,"user_created_at":null,"quote_count":null,"reply_count":null,"retweet_count":null,"favorite_count":null,"hashtags":null,"urls":null,"user_mentions":null,"text":null,"source":null,"lang":null}"#;

#[test]
fn absent_fields_are_written_as_null() {
    assert_eq!(encode(&empty_digest()), ALL_NULL);
}

#[test]
fn every_field_is_written_in_order() {
    let digest = Digest {
        id: text("1"),
        created_at: text("c"),
        screen_name: text("s"),
        location: text("l"),
        description: text("d"),
        user_id: text("u"),
        verified: Some(false),
        followers_count: Some(1),
        friends_count: Some(2),
        listed_count: Some(3),
        favourites_count: Some(4),
        statuses_count: Some(5),
        user_created_at: text("uc"),
        quote_count: Some(6),
        reply_count: Some(7),
        retweet_count: Some(8),
        favorite_count: Some(9),
        hashtags: Some(vec![
            Hashtag { indices: Some(vec![0, 2]), text: text("a") },
            Hashtag { indices: None, text: None },
        ]),
        urls: Some(vec![Url {
            indices: Some(vec![]),
            url: text("x"),
            display_url: None,
            expanded_url: text("z"),
        }]),
        user_mentions: Some(vec![Mention {
            name: text("n"),
            indices: Some(vec![-1]),
            screen_name: None,
            id_str: text("i"),
        }]),
        text: text("t"),
        source: text("src"),
        lang: text("en"),
    };
    assert_eq!(
        encode(&digest),
        r#"{"id":"1","created_at":"c","screen_name":"s","location":"l","description":"d","user_id":"u","verified":false,"followers_count":1,"friends_count":2,"listed_count":3,"favourites_count":4,"statuses_count":5,"user_created_at":"uc","quote_count":6,"reply_count":7,"retweet_count":8,"favorite_count":9,"hashtags":[{"indices":[0,2],"text":"a"},{"indices":null,"text":null}],"urls":[{"indices":[],"url":"x","display_url":null,"expanded_url":"z"}],"user_mentions":[{"name":"n","indices":[-1],"screen_name":null,"id_str":"i"}],"text":"t","source":"src","lang":"en"}"#
    );
}

#[test]
fn one_present_field_leaves_the_others_null() {
    let mut digest = empty_digest();
    digest.verified = Some(true);
    assert_eq!(encode(&digest), ALL_NULL.replace(r#""verified":null"#, r#""verified":true"#));
    let mut digest = empty_digest();
    digest.urls = Some(vec![]);
    assert_eq!(encode(&digest), ALL_NULL.replace(r#""urls":null"#, r#""urls":[]"#));
    let mut digest = empty_digest();
    digest.lang = text("");
    assert_eq!(encode(&digest), ALL_NULL.replace(r#""lang":null"#, r#""lang":"""#));
}

#[test]
fn counts_are_written_in_decimal() {
    assert_eq!(decimal_text(0), "0");
    assert_eq!(decimal_text(7), "7");
    assert_eq!(decimal_text(10), "10");
    assert_eq!(decimal_text(109), "109");
    assert_eq!(decimal_text(-1), "-1");
    assert_eq!(decimal_text(-120), "-120");
    assert_eq!(decimal_text(1234567890), "1234567890");
    assert_eq!(decimal_text(i32::MAX), "2147483647");
    assert_eq!(decimal_text(i32::MIN), "-2147483648");
}

#[test]
fn counts_are_written_as_serde_json_writes_them() {
    for n in [0, 1, -1, 9, 10, 99, 100, 65535, -65536, i32::MAX, i32::MIN, i32::MIN + 1] {
        assert_eq!(decimal_text(n), serde_json::to_string(&n).unwrap());
    }
}

#[test]
fn texts_are_quoted_and_escaped() {
    let mut digest = empty_digest();
    digest.text = text("say \"hi\"\\\n\ttab\r\u{8}\u{c}\u{1}/\u{7f}");
    assert_eq!(
        encode(&digest),
        ALL_NULL.replace(
            r#""text":null"#,
            "\"text\":\"say \\\"hi\\\"\\\\\\n\\ttab\\r\\b\\f\\u0001/\u{7f}\""
        )
    );
}

#[test]
fn text_null_is_not_the_null() {
    let mut digest = empty_digest();
    digest.source = text("null");
    assert_eq!(encode(&digest), ALL_NULL.replace(r#""source":null"#, r#""source":"null""#));
}

#[test]
fn unicode_is_written_as_it_is() {
    let mut digest = empty_digest();
    digest.text = text("caf\u{e9} \u{1F600} \u{65e5}\u{672c}\u{8a9e}");
    digest.location = text("\u{41c}\u{43e}\u{441}\u{43a}\u{432}\u{430}");
    let json = encode(&digest);
    assert!(json.contains("\"text\":\"caf\u{e9} \u{1F600} \u{65e5}\u{672c}\u{8a9e}\""));
    assert!(json.contains("\"location\":\"\u{41c}\u{43e}\u{441}\u{43a}\u{432}\u{430}\""));
}

#[test]
fn unicode_survives_decoding_and_encoding() {
    let line = "{\"text\":\"caf\u{e9} \u{1F600} \\ud83d\\ude00 \\u00e9\",\"user\":{\"location\":\"\u{6771}\u{4eac} \u{41c}\u{43e}\u{441}\u{43a}\u{432}\u{430}\"}}";
    let digest = Digest::from(decode(Schema::Strict, line).unwrap());
    assert_eq!(digest.text, text("caf\u{e9} \u{1F600} \u{1F600} \u{e9}"));
    assert_eq!(digest.location, text("\u{6771}\u{4eac} \u{41c}\u{43e}\u{441}\u{43a}\u{432}\u{430}"));
    let json = encode(&digest);
    let again = Digest::from(
        decode(Schema::Strict, &json.replace("\"location\":", "\"user\":{\"location\":null},\"place\":")).unwrap(),
    );
    assert_eq!(again.text, digest.text);
    let reread: serde_json::Value = serde_json::from_str(&json).unwrap();
    assert_eq!(reread["text"].as_str(), digest.text.as_deref());
    assert_eq!(reread["location"].as_str(), digest.location.as_deref());
}

#[test]
fn output_is_an_object_with_every_key() {
    let line = r#"{"id_str":"1","user":{"screen_name":"ann","verified":true},"entities":{"hashtags":[{"text":"a","indices":[1,2]}]},"text":"t"}"#;
    let json = encode(&Digest::from(decode(Schema::Strict, line).unwrap()));
    let reread: serde_json::Value = serde_json::from_str(&json).unwrap();
    let object = reread.as_object().unwrap();
    let keys = [
        "id", "created_at", "screen_name", "location", "description", "user_id", "verified",
        "followers_count", "friends_count", "listed_count", "favourites_count", "statuses_count",
        "user_created_at", "quote_count", "reply_count", "retweet_count", "favorite_count",
        "hashtags", "urls", "user_mentions", "text", "source", "lang",
    ];
    assert_eq!(object.len(), keys.len());
    for key in keys {
        assert!(object.contains_key(key));
    }
    assert_eq!(reread["id"], serde_json::Value::String("1".to_string()));
    assert_eq!(reread["screen_name"], serde_json::Value::String("ann".to_string()));
    assert_eq!(reread["verified"], serde_json::Value::Bool(true));
    assert_eq!(reread["location"], serde_json::Value::Null);
    assert_eq!(reread["hashtags"][0]["text"], serde_json::Value::String("a".to_string()));
    assert_eq!(reread["hashtags"][0]["indices"][1], serde_json::Value::from(2));
}
