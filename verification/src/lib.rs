//! Digests of newline-delimited JSON post records.
//!
//! Each input line holds one post as a JSON object. A line is decoded into a
//! [`Tweet`], projected onto the flat [`Digest`], and written out again as one
//! line of JSON in which every field is present, `null` where the post did not
//! have it.

pub mod config;
pub mod decode;
pub mod digest;
pub mod driver;
pub mod encode;
pub mod json;
pub mod laws;
pub mod resolve;
pub mod schema;

pub use config::Config;
pub use decode::{at_path, decode, decode_value, member_of, DecodeError, DecodeFailure, Schema};
pub use digest::Digest;
pub use driver::{
    digest_line, digest_value, output_line, react, run_lines, Action, Event, Failure, Outcome,
};
pub use encode::{decimal_text, encode};
pub use resolve::resolve_text;
pub use schema::{
    default_entities, default_user, Entities, ExtendedTweet, Hashtag, Mention, Status, Tweet, Url,
    User,
};
