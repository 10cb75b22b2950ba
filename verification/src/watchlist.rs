//! The watchlist: the symbols to track, read from a JSON array of strings.

use crate::line::texts;
use vstd::prelude::*;

verus! {

/// The error of `serde_json`, opaque here.
#[verifier::external_type_specification]
#[verifier::external_body]
pub struct ExJsonError(serde_json::Error);

/// What `serde_json::from_str` makes of `text` when asked for a list of
/// strings: the strings, in order, or `None` where it reports an error, as it
/// does for text that is not a JSON array of strings.
pub uninterp spec fn json_string_array(text: Seq<char>) -> Option<Seq<Seq<char>>>;

/// Why a watchlist could not be read.
#[derive(Clone, Debug, PartialEq, Eq)]
pub enum WatchlistError {
    /// The text is not a JSON array of strings. The message says where and
    /// why, in the parser's words.
    Malformed { message: String },
}

/// Calls `serde_json::from_str` for a `Vec<String>`. The contract only
/// names the result: the call returns `Ok` with the strings that
/// `json_string_array` gives for the text, and `Err` where it gives none,
/// so that the same text always reads the same. Nothing is claimed of the
/// error.
#[verifier::external_body]
fn parse_string_array(text: &str) -> (parsed: Result<Vec<String>, serde_json::Error>)
    ensures
        match parsed {
            Ok(list) => json_string_array(text@) == Some(texts(list@)),
            Err(_) => json_string_array(text@) is None,
        },
{
    serde_json::from_str::<Vec<String>>(text)
}

/// Calls `to_string` on an error of `serde_json`, which writes the error's
/// message with its line and column. Nothing is claimed of the text.
#[verifier::external_body]
fn error_message(error: &serde_json::Error) -> (message: String) {
    error.to_string()
}

/// Turns what the parser returned into the watchlist: the symbols as they
/// were parsed, or the parser's error as an error of this library.
pub fn watchlist_from(parsed: Result<Vec<String>, serde_json::Error>) -> (watchlist: Result<
    Vec<String>,
    WatchlistError,
>)
    ensures
        parsed is Ok ==> watchlist == Ok::<Vec<String>, WatchlistError>(parsed->Ok_0),
        parsed is Err ==> watchlist is Err,
{
    match parsed {
        Ok(symbols) => Ok(symbols),
        Err(error) => Err(WatchlistError::Malformed { message: error_message(&error) }),
    }
}

/// Reads a watchlist from the text of a JSON array of strings. The symbols
/// come out in the order of the array, duplicates included.
pub fn parse_watchlist(text: &str) -> (watchlist: Result<Vec<String>, WatchlistError>)
    ensures
        match watchlist {
            Ok(symbols) => json_string_array(text@) == Some(texts(symbols@)),
            Err(_) => json_string_array(text@) is None,
        },
{
    watchlist_from(parse_string_array(text))
}

impl WatchlistError {
    /// The text of this error, for diagnostics.
    pub fn message(&self) -> (text: String)
        ensures
            match self {
                WatchlistError::Malformed { message } => text@ == message@,
            },
    {
        match self {
            WatchlistError::Malformed { message } => message.clone(),
        }
    }
}

} // verus!
