//! Normalization of the two user-supplied command tokens.
//!
//! The AS-number token may carry a leading case-insensitive `AS` marker,
//! which is stripped exactly once; the prefix token is passed through
//! unvalidated (the remote service is the authority on its syntax).

use vstd::prelude::*;
use vstd::string::*;

verus! {

/// A user mistake in the command arguments, naming the offending argument.
#[derive(Clone, Copy, Debug, PartialEq, Eq, Structural)]
pub enum InputError {
    MissingAsNumber,
    MissingPrefix,
}

impl InputError {
    /// The one-line user-facing message for this input error.
    pub open spec fn message_spec(self) -> Seq<char> {
        match self {
            InputError::MissingAsNumber => "Invalid AS number: missing argument"@,
            InputError::MissingPrefix => "Invalid prefix: missing argument"@,
        }
    }

    /// Render the error as its one-line message.
    pub fn message(&self) -> (r: String)
        ensures
            r@ == self.message_spec(),
    {
        match self {
            InputError::MissingAsNumber => String::from_str("Invalid AS number: missing argument"),
            InputError::MissingPrefix => String::from_str("Invalid prefix: missing argument"),
        }
    }
}

/// The AS-number token with a leading case-insensitive `AS` removed, if one
/// was present; otherwise the token unchanged.
pub open spec fn strip_as_spec(s: Seq<char>) -> Seq<char> {
    if s.len() >= 2 && (s[0] == 'A' || s[0] == 'a') && (s[1] == 'S' || s[1] == 's') {
        s.subrange(2, s.len() as int)
    } else {
        s
    }
}

/// Strip a leading case-insensitive `AS` from the token, exactly once.
pub fn strip_as_prefix(s: &str) -> (r: String)
    ensures
        r@ == strip_as_spec(s@),
{
    let n = s.unicode_len();
    if n >= 2 {
        let c0 = s.get_char(0);
        let c1 = s.get_char(1);
        if (c0 == 'A' || c0 == 'a') && (c1 == 'S' || c1 == 's') {
            let rest = s.substring_char(2, n);
            return rest.to_owned();
        }
    }
    s.to_owned()
}

/// Normalize the two command tokens: reject a missing argument, strip the
/// optional `AS` marker from the AS-number token, and pass the prefix
/// through untouched.
pub fn normalize(as_token: Option<&str>, prefix_token: Option<&str>) -> (r: Result<
    (String, String),
    InputError,
>)
    ensures
        as_token is None ==> r == Err::<(String, String), InputError>(
            InputError::MissingAsNumber,
        ),
        as_token is Some && prefix_token is None ==> r == Err::<(String, String), InputError>(
            InputError::MissingPrefix,
        ),
        as_token matches Some(a) ==> prefix_token matches Some(p) ==> (r matches Ok(t)
            && t.0@ == strip_as_spec(a@) && t.1@ == p@),
{
    match (as_token, prefix_token) {
        (None, _) => Err(InputError::MissingAsNumber),
        (Some(_), None) => Err(InputError::MissingPrefix),
        (Some(a), Some(p)) => Ok((strip_as_prefix(a), p.to_owned())),
    }
}

/// Law: normalization of an AS-number token is insensitive to the presence
/// and casing of the leading `AS` marker.  For a bare numeric token, the
/// token itself and every cased variant of the marked token normalize to
/// the same bare string.
pub proof fn lemma_strip_as_uniform(s: Seq<char>)
    requires
        forall|i: int| 0 <= i < s.len() ==> '0' <= #[trigger] s[i] <= '9',
    ensures
        strip_as_spec(s) == s,
        strip_as_spec(seq!['A', 'S'] + s) == s,
        strip_as_spec(seq!['a', 's'] + s) == s,
        strip_as_spec(seq!['A', 's'] + s) == s,
        strip_as_spec(seq!['a', 'S'] + s) == s,
{
    if s.len() >= 2 {
        assert(s[0] != 'A' && s[0] != 'a');
    }
    assert(strip_as_spec(seq!['A', 'S'] + s) =~= s);
    assert(strip_as_spec(seq!['a', 's'] + s) =~= s);
    assert(strip_as_spec(seq!['A', 's'] + s) =~= s);
    assert(strip_as_spec(seq!['a', 'S'] + s) =~= s);
}

} // verus!
