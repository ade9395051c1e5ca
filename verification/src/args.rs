//! Arguments of the form `KEY:VALUE`, as headers and substitution pairs are
//! given on the command line.

use crate::seqs::{first_position, lemma_first_position_is};
use crate::text::{from_chars, to_chars};
use vstd::prelude::*;

verus! {

/// An argument that holds no `:`.
#[derive(Debug, PartialEq, Eq)]
pub struct KeyValError {
    /// The argument as it was given.
    pub input: String,
}

impl KeyValError {
    /// The message for the user.
    pub open spec fn message_view(&self) -> Seq<char> {
        "Invalid KEY VALUE pair: no `:` found in `"@ + self.input@ + "`"@
    }

    /// The message for the user.
    pub fn message(&self) -> (text: String)
        ensures
            text@ == self.message_view(),
    {
        let mut text = "Invalid KEY VALUE pair: no `:` found in `".to_owned();
        text.append(self.input.as_str());
        text.append("`");
        text
    }
}

/// The key of `s`: what stands before the first `:`.
pub open spec fn key_of(s: Seq<char>) -> Seq<char> {
    s.take(first_position(s, ':'))
}

/// The value of `s`: what stands behind the first `:`. It may hold further
/// colons.
pub open spec fn value_of(s: Seq<char>) -> Seq<char> {
    s.skip(first_position(s, ':') + 1)
}

/// Parse a single key-value pair. The argument is split at its first `:`;
/// one without a `:` is rejected.
pub fn parse_key_val(s: &str) -> (parsed: Result<(String, String), KeyValError>)
    ensures
        parsed is Ok <==> s@.contains(':'),
        parsed matches Ok(pair) ==> pair.0@ == key_of(s@) && pair.1@ == value_of(s@),
        parsed matches Err(error) ==> error.input@ == s@,
{
    let chars = to_chars(s);
    let mut key: Vec<char> = Vec::new();
    let mut i: usize = 0;
    while i < chars.len()
        invariant
            i <= chars.len(),
            chars@ == s@,
            key@ == chars@.take(i as int),
            forall|k: int| 0 <= k < i ==> chars@[k] != ':',
        decreases chars.len() - i,
    {
        if chars[i] == ':' {
            proof {
                lemma_first_position_is(chars@, ':', i as int);
            }
            let mut value: Vec<char> = Vec::new();
            let mut j: usize = i + 1;
            while j < chars.len()
                invariant
                    i < j <= chars.len(),
                    value@ == chars@.subrange(i + 1, j as int),
                decreases chars.len() - j,
            {
                value.push(chars[j]);
                j += 1;
            }
            assert(chars@.subrange(i + 1, chars.len() as int) == chars@.skip(i + 1));
            assert(s@[i as int] == ':');
            return Ok((from_chars(&key), from_chars(&value)));
        }
        key.push(chars[i]);
        i += 1;
    }
    Err(KeyValError { input: from_chars(&chars) })
}

} // verus!
