//! The line loop, without its files.
//!
//! A run takes its input line by line. Each line is decoded, projected and
//! encoded on its own, and its digest is appended to the output with a line
//! end. A line that cannot be decoded stops the run at once: what was appended
//! before it stays, and no later line is looked at. An append that fails is
//! reported and the run goes on with the next line.

use vstd::prelude::*;
use vstd::string::StringExecFns;
use crate::decode::{decode_value, decoded, decoded_tree, DecodeError, DecodeFailure, Schema};
use crate::digest::{project, Digest};
use crate::encode::{digest_json, encode};
use crate::json::{document, one_line, parse, tree_of, JsonTree};

verus! {

/// The digest text of a JSON value under `schema`, or why it has none.
pub open spec fn digested_tree(schema: Schema, tree: JsonTree) -> Result<Seq<char>, DecodeFailure> {
    match decoded_tree(schema, tree) {
        Ok(tweet) => Ok(digest_json(project(tweet))),
        Err(failure) => Err(failure),
    }
}

/// The digest text of a parsed line under `schema`, or why it has none.
pub open spec fn digested(schema: Schema, parsed: Option<JsonTree>) -> Result<
    Seq<char>,
    DecodeFailure,
> {
    match decoded(schema, parsed) {
        Ok(tweet) => Ok(digest_json(project(tweet))),
        Err(failure) => Err(failure),
    }
}

/// Whether a line decodes under `schema`.
pub open spec fn accepted(schema: Schema, line: Seq<char>) -> bool {
    digested(schema, document(line)) is Ok
}

/// What a run appends for a line that decodes: its digest and a line end.
pub open spec fn appended(schema: Schema, line: Seq<char>) -> Seq<char> {
    digested(schema, document(line))->Ok_0 + "\n"@
}

/// Whether a text is exactly one line: it ends in a line end and holds no
/// other.
pub open spec fn is_line(text: Seq<char>) -> bool {
    text.len() > 0 && text.last() == '\n' && one_line(text.drop_last())
}

/// Decodes, projects and encodes a JSON value.
pub fn digest_value(schema: Schema, value: &serde_json::Value) -> (r: Result<String, DecodeError>)
    ensures
        match r {
            Ok(json) => digested_tree(schema, tree_of(*value)) == Ok::<Seq<char>, DecodeFailure>(json@)
                && one_line(json@),
            Err(error) => digested_tree(schema, tree_of(*value)) == Err::<Seq<char>, DecodeFailure>(
                error@,
            ),
        },
{
    match decode_value(schema, value) {
        Ok(tweet) => Ok(encode(&Digest::from(tweet))),
        Err(error) => Err(error),
    }
}

/// Decodes, projects and encodes one line.
pub fn digest_line(schema: Schema, line: &str) -> (r: Result<String, DecodeError>)
    ensures
        match r {
            Ok(json) => digested(schema, document(line@)) == Ok::<Seq<char>, DecodeFailure>(json@)
                && one_line(json@),
            Err(error) => digested(schema, document(line@)) == Err::<Seq<char>, DecodeFailure>(
                error@,
            ),
        },
{
    match parse(line) {
        Ok(value) => digest_value(schema, &value),
        Err(error) => Err(DecodeError::MalformedJson(error)),
    }
}

/// What happened in the loop.
#[derive(Debug, Clone, Copy)]
pub enum Event<'a> {
    /// This line was read.
    Line(&'a str),
    /// The last text could not be appended to the output.
    AppendFailed,
}

/// What an [`Event`] holds, as the contracts see it.
pub ghost enum EventView {
    Line(Seq<char>),
    AppendFailed,
}

impl<'a> View for Event<'a> {
    type V = EventView;

    open spec fn view(&self) -> EventView {
        match self {
            Event::Line(line) => EventView::Line(line@),
            Event::AppendFailed => EventView::AppendFailed,
        }
    }
}

/// What the loop does next.
#[derive(Debug)]
pub enum Action {
    /// Append this text to the output, then read on.
    Append(String),
    /// Report the failed append, then read on.
    Report,
    /// End the run with this failure.
    Abort(DecodeError),
}

/// What an [`Action`] holds, as the contracts see it.
pub ghost enum ActionView {
    Append(Seq<char>),
    Report,
    Abort(DecodeFailure),
}

impl View for Action {
    type V = ActionView;

    open spec fn view(&self) -> ActionView {
        match self {
            Action::Append(text) => ActionView::Append(text@),
            Action::Report => ActionView::Report,
            Action::Abort(error) => ActionView::Abort(error@),
        }
    }
}

/// The action that answers an event.
pub open spec fn reaction(schema: Schema, event: EventView) -> ActionView {
    match event {
        EventView::Line(line) => match digested(schema, document(line)) {
            Ok(json) => ActionView::Append(json + "\n"@),
            Err(failure) => ActionView::Abort(failure),
        },
        EventView::AppendFailed => ActionView::Report,
    }
}

/// The text that a run appends for one line: its digest and a line end.
pub fn output_line(schema: Schema, line: &str) -> (r: Result<String, DecodeError>)
    ensures
        match r {
            Ok(text) => accepted(schema, line@) && text@ == appended(schema, line@) && is_line(
                text@,
            ),
            Err(error) => digested(schema, document(line@)) == Err::<Seq<char>, DecodeFailure>(
                error@,
            ),
        },
{
    match digest_line(schema, line) {
        Ok(json) => {
            let mut text = json;
            text.append("\n");
            proof {
                reveal_strlit("\n");
                assert(text@.drop_last() == json@);
            }
            Ok(text)
        },
        Err(error) => Err(error),
    }
}

/// Decides what the loop does next.
pub fn react(schema: Schema, event: Event) -> (action: Action)
    ensures
        action@ == reaction(schema, event@),
        action matches Action::Append(text) ==> is_line(text@),
{
    match event {
        Event::Line(line) => match output_line(schema, line) {
            Ok(text) => Action::Append(text),
            Err(error) => Action::Abort(error),
        },
        Event::AppendFailed => Action::Report,
    }
}

/// The line at which a run stopped, and why.
#[derive(Debug)]
pub struct Failure {
    /// The number of lines before the one that failed.
    pub line: usize,
    pub error: DecodeError,
}

/// What a run over given lines appends, and how it ends.
#[derive(Debug)]
pub struct Outcome {
    /// The texts appended, in order, each with its line end.
    pub output: Vec<String>,
    /// The failure that stopped the run, if one did.
    pub failure: Option<Failure>,
}

/// What an [`Outcome`] holds, as the contracts see it.
pub ghost struct OutcomeView {
    pub output: Seq<Seq<char>>,
    pub failure: Option<(int, DecodeFailure)>,
}

impl View for Outcome {
    type V = OutcomeView;

    open spec fn view(&self) -> OutcomeView {
        OutcomeView {
            output: self.output.deep_view(),
            failure: match self.failure {
                Some(failure) => Some((failure.line as int, failure.error@)),
                None => None,
            },
        }
    }
}

/// A run over `lines`: the run over all but the last of them, and then, unless
/// that one has failed, the last line appended or the run failed at it.
pub open spec fn run(schema: Schema, lines: Seq<Seq<char>>) -> OutcomeView
    decreases lines.len(),
{
    if lines.len() == 0 {
        OutcomeView { output: Seq::empty(), failure: None }
    } else {
        let before = run(schema, lines.drop_last());
        if before.failure is Some {
            before
        } else {
            match digested(schema, document(lines.last())) {
                Ok(json) => OutcomeView { output: before.output.push(json + "\n"@), failure: None },
                Err(failure) => OutcomeView {
                    output: before.output,
                    failure: Some((lines.len() - 1, failure)),
                },
            }
        }
    }
}

/// Once a run has failed, further lines change nothing.
pub proof fn failure_ends_the_run(schema: Schema, lines: Seq<Seq<char>>, count: int)
    requires
        0 <= count <= lines.len(),
        run(schema, lines.take(count)).failure is Some,
    ensures
        run(schema, lines) == run(schema, lines.take(count)),
    decreases lines.len(),
{
    if count == lines.len() {
        assert(lines.take(count) == lines);
    } else {
        assert(lines.drop_last().take(count) == lines.take(count));
        failure_ends_the_run(schema, lines.drop_last(), count);
    }
}

/// Runs the loop over lines held in memory, every append succeeding.
pub fn run_lines(schema: Schema, lines: &Vec<String>) -> (outcome: Outcome)
    ensures
        outcome@ == run(schema, lines.deep_view()),
        forall|i: int| 0 <= i < outcome.output@.len() ==> is_line((#[trigger] outcome.output@[i])@),
{
    let ghost texts = lines.deep_view();
    let mut output: Vec<String> = Vec::new();
    let mut i: usize = 0;
    assert(output.deep_view() == Seq::<Seq<char>>::empty());
    while i < lines.len()
        invariant
            i <= lines.len(),
            texts == lines.deep_view(),
            forall|j: int| 0 <= j < output@.len() ==> is_line((#[trigger] output@[j])@),
            run(schema, texts.take(i as int)) == (OutcomeView {
                output: output.deep_view(),
                failure: None,
            }),
        decreases lines.len() - i,
    {
        proof {
            assert(texts.take(i + 1).drop_last() == texts.take(i as int));
            assert(texts.take(i + 1).last() == lines@[i as int]@);
        }
        let ghost before = output.deep_view();
        match output_line(schema, lines[i].as_str()) {
            Ok(text) => {
                output.push(text);
                assert(output.deep_view() == before.push(text@));
            },
            Err(error) => {
                proof {
                    failure_ends_the_run(schema, texts, i + 1);
                }
                return Outcome { output, failure: Some(Failure { line: i, error }) };
            },
        }
        i += 1;
    }
    assert(texts.take(i as int) == texts);
    Outcome { output, failure: None }
}

} // verus!
