use clirs::{
    digest_line, digest_value, output_line, react, run_lines, Action, DecodeFailure, Event, Schema,
};

fn lines(items: &[&str]) -> Vec<String> {
    items.iter().map(|s| s.to_string()).collect()
}

fn with_text(t: &str) -> String {
    format!(
        "{{\"id\":null,\"created_at\":null,\"screen_name\":null,\"location\":null,\"description\":null,\"user_id\":null,\"verified\":null,\"followers_count\":null,\"friends_count\":null,\"listed_count\":null,\"favourites_count\":null,\"statuses_count\":null,\"user_created_at\":null,\"quote_count\":null,\"reply_count\":null,\"retweet_count\":null,\"favorite_count\":null,\"hashtags\":null,\"urls\":null,\"user_mentions\":null,\"text\":{},\"source\":null,\"lang\":null}}",
        t
    )
}

#[test]
fn a_line_becomes_its_digest() {
    assert_eq!(digest_line(Schema::Strict, r#"{"text":"a"}"#).unwrap(), with_text("\"a\""));
    assert_eq!(digest_line(Schema::Strict, "{}").unwrap(), with_text("null"));
    assert_eq!(
        digest_line(Schema::Strict, r#"{"text":"short","extended_tweet":{"full_text":"long"}}"#)
            .unwrap(),
        with_text("\"long\"")
    );
}

#[test]
fn a_line_fails_as_its_decoding_does() {
    assert_eq!(
        digest_line(Schema::Strict, "{").unwrap_err().failure(),
        DecodeFailure::MalformedJson
    );
    assert_eq!(
        digest_line(Schema::Strict, "[]").unwrap_err().failure(),
        DecodeFailure::SchemaMismatch
    );
    assert_eq!(digest_line(Schema::Dynamic, "[]").unwrap(), with_text("null"));
}

#[test]
fn a_value_becomes_the_digest_of_its_text() {
    let line = r#"{"text":"a","user":{"screen_name":"ann"}}"#;
    let value: serde_json::Value = serde_json::from_str(line).unwrap();
    assert_eq!(
        digest_value(Schema::Strict, &value).unwrap(),
        digest_line(Schema::Strict, line).unwrap()
    );
    assert_eq!(
        digest_value(Schema::Strict, &serde_json::Value::Bool(true)).unwrap_err().failure(),
        DecodeFailure::SchemaMismatch
    );
}

#[test]
fn appended_text_ends_the_line() {
    let text = output_line(Schema::Strict, r#"{"text":"a"}"#).unwrap();
    assert_eq!(text, with_text("\"a\"") + "\n");
    assert_eq!(
        output_line(Schema::Strict, "nope").unwrap_err().failure(),
        DecodeFailure::MalformedJson
    );
}

#[test]
fn a_good_line_is_appended() {
    match react(Schema::Strict, Event::Line(r#"{"text":"a"}"#)) {
        Action::Append(text) => assert_eq!(text, with_text("\"a\"") + "\n"),
        other => panic!("{:?}", other),
    }
}

#[test]
fn a_bad_line_ends_the_run() {
    match react(Schema::Strict, Event::Line(r#"{"text":"#)) {
        Action::Abort(error) => assert_eq!(error.failure(), DecodeFailure::MalformedJson),
        other => panic!("{:?}", other),
    }
    match react(Schema::Strict, Event::Line("7")) {
        Action::Abort(error) => assert_eq!(error.failure(), DecodeFailure::SchemaMismatch),
        other => panic!("{:?}", other),
    }
}

#[test]
fn a_failed_append_is_reported() {
    assert!(matches!(react(Schema::Strict, Event::AppendFailed), Action::Report));
    assert!(matches!(react(Schema::Dynamic, Event::AppendFailed), Action::Report));
}

#[test]
fn every_good_line_gives_one_output_line_in_order() {
    let input = lines(&[r#"{"text":"one"}"#, r#"{"text":"two"}"#, "{}", r#"{"text":"four"}"#]);
    let outcome = run_lines(Schema::Strict, &input);
    assert!(outcome.failure.is_none());
    assert_eq!(
        outcome.output,
        vec![
            with_text("\"one\"") + "\n",
            with_text("\"two\"") + "\n",
            with_text("null") + "\n",
            with_text("\"four\"") + "\n",
        ]
    );
    for line in &outcome.output {
        assert!(line.ends_with('\n'));
        assert_eq!(line.matches('\n').count(), 1);
        let value: serde_json::Value = serde_json::from_str(line.trim_end_matches('\n')).unwrap();
        assert!(value.is_object());
    }
}

#[test]
fn no_lines_give_no_output() {
    let outcome = run_lines(Schema::Strict, &lines(&[]));
    assert!(outcome.failure.is_none());
    assert!(outcome.output.is_empty());
}

#[test]
fn run_stops_at_the_first_bad_line() {
    let input = lines(&[r#"{"text":"one"}"#, "{not json", r#"{"text":"three"}"#]);
    let outcome = run_lines(Schema::Strict, &input);
    assert_eq!(outcome.output, vec![with_text("\"one\"") + "\n"]);
    let failure = outcome.failure.unwrap();
    assert_eq!(failure.line, 1);
    assert_eq!(failure.error.failure(), DecodeFailure::MalformedJson);
}

#[test]
fn run_stops_at_a_line_that_is_no_object() {
    let input = lines(&["{}", "{}", "[]", "{"]);
    let outcome = run_lines(Schema::Strict, &input);
    assert_eq!(outcome.output.len(), 2);
    let failure = outcome.failure.unwrap();
    assert_eq!(failure.line, 2);
    assert_eq!(failure.error.failure(), DecodeFailure::SchemaMismatch);
    let outcome = run_lines(Schema::Dynamic, &input);
    assert_eq!(outcome.output.len(), 3);
    let failure = outcome.failure.unwrap();
    assert_eq!(failure.line, 3);
    assert_eq!(failure.error.failure(), DecodeFailure::MalformedJson);
}

#[test]
fn bad_first_line_gives_no_output() {
    let outcome = run_lines(Schema::Strict, &lines(&["", "{}"]));
    assert!(outcome.output.is_empty());
    assert_eq!(outcome.failure.unwrap().line, 0);
}

#[test]
fn a_line_is_digested_on_its_own() {
    let line = r#"{"id_str":"9","text":"same","user":{"screen_name":"ann"}}"#;
    let alone = run_lines(Schema::Strict, &lines(&[line]));
    let among = run_lines(Schema::Strict, &lines(&["{}", line, r#"{"text":"x"}"#, line]));
    assert_eq!(among.output[1], alone.output[0]);
    assert_eq!(among.output[3], alone.output[0]);
    assert_eq!(alone.output[0], output_line(Schema::Strict, line).unwrap());
}

#[test]
fn a_second_run_gives_the_same_lines() {
    let input = lines(&[r#"{"text":"one"}"#, r#"{"text":"two"}"#]);
    let first = run_lines(Schema::Strict, &input);
    let second = run_lines(Schema::Strict, &input);
    assert_eq!(first.output, second.output);
    let mut file = first.output.clone();
    file.extend(second.output);
    assert_eq!(file.len(), 2 * input.len());
    assert_eq!(file[..2], file[2..]);
}

#[test]
fn a_line_end_in_a_text_stays_inside_the_line() {
    let text = output_line(Schema::Strict, r#"{"text":"first\nsecond\r\n","user":{"location":"a\nb"}}"#)
        .unwrap();
    assert!(text.ends_with('\n'));
    assert_eq!(text.matches('\n').count(), 1);
    assert!(text.contains(r#""text":"first\nsecond\r\n""#));
    assert!(text.contains(r#""location":"a\nb""#));
}
