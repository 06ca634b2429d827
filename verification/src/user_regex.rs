//! Regular expressions given by users, built with restricted limits to
//! keep malicious input from exhausting resources.

use vstd::prelude::*;
use vstd::string::StringSliceAdditionalSpecFns;
use crate::error::WikiError;
use crate::patterns::{regex_compiles_with_limits, regex_error_message, Pattern};

verus! {

/// The longest accepted regex, in bytes.
pub const MAX_LEN: usize = 100;

/// The `size_limit` the regex is built with.
pub const SIZE_LIMIT: usize = 10_000;

/// The `dfa_size_limit` the regex is built with.
pub const DFA_SIZE_LIMIT: usize = 10_000;

/// The `nest_limit` the regex is built with.
pub const NEST_LIMIT: u32 = 10;

/// A regex built from user input.
pub struct UserRegex(pub Pattern);

impl UserRegex {
    /// Builds a user's regex: at most [`MAX_LEN`] bytes long, and compiled
    /// within the limits above.
    pub fn parse(s: &str) -> (r: Result<UserRegex, WikiError>)
        ensures
            s.spec_bytes().len() > MAX_LEN ==> (r matches Err(WikiError::RegexTooLong { len })
                && len == s.spec_bytes().len()),
            s.spec_bytes().len() <= MAX_LEN ==> if regex_compiles_with_limits(
                s@,
                SIZE_LIMIT,
                DFA_SIZE_LIMIT,
                NEST_LIMIT,
            ) {
                r matches Ok(re) && re.0.source_view() == s@
            } else {
                r matches Err(WikiError::Pattern { .. })
            },
    {
        let len = s.as_bytes().len();
        if len > MAX_LEN {
            return Err(WikiError::RegexTooLong { len });
        }
        match Pattern::new_limited(s, SIZE_LIMIT, DFA_SIZE_LIMIT, NEST_LIMIT) {
            Ok(p) => Ok(UserRegex(p)),
            Err(e) => Err(WikiError::Pattern { message: regex_error_message(&e) }),
        }
    }

    /// Whether the regex matches somewhere in `haystack`.
    pub fn is_match(&self, haystack: &str) -> (r: bool)
        ensures
            r == crate::patterns::regex_is_match(self.0.source_view(), haystack@),
    {
        self.0.is_match(haystack)
    }

    /// The regex's source text.
    pub fn as_str(&self) -> (r: &str)
        ensures
            r@ == self.0.source_view(),
    {
        self.0.as_str()
    }
}

impl std::str::FromStr for UserRegex {
    type Err = WikiError;

    fn from_str(s: &str) -> (r: Result<UserRegex, WikiError>)
        ensures
            s.spec_bytes().len() > MAX_LEN ==> (r matches Err(WikiError::RegexTooLong { len })
                && len == s.spec_bytes().len()),
            s.spec_bytes().len() <= MAX_LEN ==> if regex_compiles_with_limits(
                s@,
                SIZE_LIMIT,
                DFA_SIZE_LIMIT,
                NEST_LIMIT,
            ) {
                r matches Ok(re) && re.0.source_view() == s@
            } else {
                r matches Err(WikiError::Pattern { .. })
            },
    {
        UserRegex::parse(s)
    }
}

} // verus!
