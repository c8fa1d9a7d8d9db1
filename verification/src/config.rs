//! A configuration line of the form `threads=<count>`.
//!
//! A line is cut at `=`. It is well formed when that gives exactly two
//! fields, a key and a value. The one key known is `threads`, compared as it
//! stands: no case is folded and no blank is trimmed. Its value is a signed
//! decimal literal that fits in an `i32`.
//!
//! [`try_parse_config`] tells the three ways in which a line can fail apart.
//! [`parse_config`] reports in band: it answers [`ERROR_SENTINEL`] for a line
//! that is malformed or has another key, and so cannot tell such a line from
//! `threads=-1`. A negative count is read like any other number; whether one
//! makes sense is left to the caller.

use crate::decimal::{decimal_i32, parse_i32};
use crate::fields::{characters, sole_separator, split};
use vstd::prelude::*;
use vstd::slice::slice_subrange;

verus! {

/// The character that parts a key from its value.
pub const SEPARATOR: char = '=';

/// What [`parse_config`] answers for a line that it does not accept.
pub const ERROR_SENTINEL: i32 = -1;

/// Why a line was not accepted.
#[derive(Clone, Copy, Debug, PartialEq, Eq, Structural)]
pub enum ConfigError {
    /// The line holds no `=`, or more than one.
    MalformedLine,
    /// The key is not `threads`.
    UnrecognizedKey,
    /// The key is `threads`, and the value is no decimal literal or lies
    /// outside of `i32`.
    InvalidThreadValue,
}

/// The one key that is known.
pub open spec fn thread_key() -> Seq<char> {
    "threads"@
}

/// What a line means. The tests are made in this order: the number of fields,
/// then the key, then the value; so a line of three fields is malformed
/// whatever its fields hold, and under another key the value is never read.
pub open spec fn config_result(line: Seq<char>) -> Result<i32, ConfigError> {
    let parts = split(line, SEPARATOR);
    if parts.len() != 2 {
        Err(ConfigError::MalformedLine)
    } else if parts[0] != thread_key() {
        Err(ConfigError::UnrecognizedKey)
    } else {
        match decimal_i32(parts[1]) {
            Some(count) => Ok(count),
            None => Err(ConfigError::InvalidThreadValue),
        }
    }
}

/// A result folded into one integer: the count itself, and
/// [`ERROR_SENTINEL`] in place of any error.
pub open spec fn sentinel_of(result: Result<i32, ConfigError>) -> i32 {
    match result {
        Ok(count) => count,
        Err(_) => ERROR_SENTINEL,
    }
}

/// A line that is not cut into exactly two fields is malformed, whatever it
/// holds, and folds into the sentinel.
pub proof fn lemma_field_count_decides(line: Seq<char>)
    requires
        split(line, SEPARATOR).len() != 2,
    ensures
        config_result(line) == Err::<i32, ConfigError>(ConfigError::MalformedLine),
        sentinel_of(config_result(line)) == ERROR_SENTINEL,
{
}

/// Under any key but `threads` a line of two fields is turned down for its
/// key, whatever its value holds, and folds into the sentinel.
pub proof fn lemma_key_decides(line: Seq<char>)
    requires
        split(line, SEPARATOR).len() == 2,
        split(line, SEPARATOR)[0] != thread_key(),
    ensures
        config_result(line) == Err::<i32, ConfigError>(ConfigError::UnrecognizedKey),
        sentinel_of(config_result(line)) == ERROR_SENTINEL,
{
}

/// Whether `key` spells `threads`.
pub fn is_thread_key(key: &[char]) -> (known: bool)
    ensures
        known == (key@ == thread_key()),
{
    proof {
        reveal_strlit("threads");
    }
    let known = key.len() == 7 && key[0] == 't' && key[1] == 'h' && key[2] == 'r' && key[3] == 'e'
        && key[4] == 'a' && key[5] == 'd' && key[6] == 's';
    assert(known ==> key@ =~= thread_key());
    known
}

/// Reads one configuration line and gives the thread count, or the reason
/// why the line was not accepted.
pub fn try_parse_config(input: &str) -> (result: Result<i32, ConfigError>)
    ensures
        result == config_result(input@),
        split(input@, SEPARATOR).len() != 2 ==> result == Err::<i32, ConfigError>(
            ConfigError::MalformedLine,
        ),
        split(input@, SEPARATOR).len() == 2 && split(input@, SEPARATOR)[0] != thread_key()
            ==> result == Err::<i32, ConfigError>(ConfigError::UnrecognizedKey),
{
    let line = characters(input);
    match sole_separator(line.as_slice(), SEPARATOR) {
        None => Err(ConfigError::MalformedLine),
        Some(at) => {
            let key = slice_subrange(line.as_slice(), 0, at);
            let value = slice_subrange(line.as_slice(), at + 1, line.len());
            if !is_thread_key(key) {
                Err(ConfigError::UnrecognizedKey)
            } else {
                match parse_i32(value) {
                    Some(count) => Ok(count),
                    None => Err(ConfigError::InvalidThreadValue),
                }
            }
        },
    }
}

/// Reads one configuration line and gives the thread count, or
/// [`ERROR_SENTINEL`] for a line that is malformed or has another key.
///
/// A line with the key `threads` and a value that is no `i32` has no answer
/// here and is left to [`try_parse_config`], which reports it as
/// [`ConfigError::InvalidThreadValue`].
pub fn parse_config(input: &str) -> (count: i32)
    requires
        config_result(input@) != Err::<i32, ConfigError>(ConfigError::InvalidThreadValue),
    ensures
        count == sentinel_of(config_result(input@)),
        split(input@, SEPARATOR).len() != 2 ==> count == ERROR_SENTINEL,
        split(input@, SEPARATOR)[0] != thread_key() ==> count == ERROR_SENTINEL,
{
    match try_parse_config(input) {
        Ok(count) => count,
        Err(_) => ERROR_SENTINEL,
    }
}

} // verus!
