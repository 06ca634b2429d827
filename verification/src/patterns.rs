//! Regular expressions, compiled and run by the `regex` crate.
//!
//! A [`Pattern`] pairs a compiled `regex::Regex` with the source text it was
//! compiled from. The fields are private and [`Pattern::new`] and
//! [`Pattern::new_limited`] are the only constructors, so the compiled
//! regex always belongs to the source text that the specifications speak of.

use vstd::prelude::*;

verus! {

/// The compiled regular expression type of the `regex` crate.
#[verifier::external_type_specification]
#[verifier::external_body]
pub struct ExRegex(::regex::Regex);

/// The error type of the `regex` crate (a syntax error or an exceeded limit).
#[verifier::external_type_specification]
#[verifier::external_body]
pub struct ExRegexError(::regex::Error);

/// Whether `regex::Regex::new` accepts `pattern` (with the crate's default
/// limits).
pub uninterp spec fn regex_compiles(pattern: Seq<char>) -> bool;

/// Whether `regex::RegexBuilder::new(pattern)` with the given size limit,
/// DFA size limit and nesting limit builds successfully.
pub uninterp spec fn regex_compiles_with_limits(
    pattern: Seq<char>,
    size_limit: usize,
    dfa_size_limit: usize,
    nest_limit: u32,
) -> bool;

/// Whether `regex::Regex::is_match` finds a match of `pattern` anywhere in
/// `haystack`.
pub uninterp spec fn regex_is_match(pattern: Seq<char>, haystack: Seq<char>) -> bool;

/// For each successive non-overlapping match of `pattern` in `haystack`
/// (as `regex::Regex::captures_iter` yields them), the text of capture
/// group `group`, or `None` where that group did not take part in the match.
pub uninterp spec fn regex_all_captures_group(
    pattern: Seq<char>,
    haystack: Seq<char>,
    group: nat,
) -> Seq<Option<Seq<char>>>;

/// For the leftmost-first match of `pattern` in `haystack` (as
/// `regex::Regex::captures` finds it), `Some` of the text of capture group
/// `group` (`None` inside if that group did not take part); `None` if there
/// is no match.
pub uninterp spec fn regex_first_capture_group(
    pattern: Seq<char>,
    haystack: Seq<char>,
    group: nat,
) -> Option<Option<Seq<char>>>;

/// The pieces of `haystack` between the successive non-overlapping
/// matches of `pattern`, as `regex::Regex::split` yields them.
pub uninterp spec fn regex_split(pattern: Seq<char>, haystack: Seq<char>) -> Seq<Seq<char>>;

/// The view of an optional string.
pub open spec fn opt_string_view(o: Option<String>) -> Option<Seq<char>> {
    match o {
        Some(s) => Some(s@),
        None => None,
    }
}

/// Calls `regex::Regex::new`: `Ok` exactly when the pattern compiles.
#[verifier::external_body]
fn regex_new(pattern: &str) -> (r: Result<::regex::Regex, ::regex::Error>)
    ensures
        (r is Ok) == regex_compiles(pattern@),
{
    ::regex::Regex::new(pattern)
}

/// Calls `regex::RegexBuilder::new(pattern)` with `size_limit`,
/// `dfa_size_limit` and `nest_limit` set, then `build`: `Ok` exactly when
/// the build succeeds under those limits.
#[verifier::external_body]
fn regex_build_with_limits(
    pattern: &str,
    size_limit: usize,
    dfa_size_limit: usize,
    nest_limit: u32,
) -> (r: Result<::regex::Regex, ::regex::Error>)
    ensures
        (r is Ok) == regex_compiles_with_limits(pattern@, size_limit, dfa_size_limit, nest_limit),
{
    ::regex::RegexBuilder::new(pattern)
        .size_limit(size_limit)
        .dfa_size_limit(dfa_size_limit)
        .nest_limit(nest_limit)
        .build()
}

/// The message of a `regex::Error`, as its `Display` implementation writes
/// it. Nothing is claimed of the text.
#[verifier::external_body]
pub(crate) fn regex_error_message(e: &::regex::Error) -> (s: String) {
    e.to_string()
}

/// Calls `regex::Regex::is_match` on the compiled regex of `p`.
#[verifier::external_body]
fn re_is_match(p: &Pattern, haystack: &str) -> (r: bool)
    ensures
        r == regex_is_match(p.source_view(), haystack@),
{
    p.re.is_match(haystack)
}

/// Calls `regex::Regex::captures_iter` on the compiled regex of `p` and
/// takes capture group `group` of each match, as an owned string.
#[verifier::external_body]
fn re_captures_iter_group(p: &Pattern, haystack: &str, group: usize) -> (r: Vec<Option<String>>)
    ensures
        r@.map_values(|o: Option<String>| opt_string_view(o)) == regex_all_captures_group(
            p.source_view(),
            haystack@,
            group as nat,
        ),
{
    p.re.captures_iter(haystack).map(|c| c.get(group).map(|m| m.as_str().to_string())).collect()
}

/// Calls `regex::Regex::split` on the compiled regex of `p`, each piece as
/// an owned string.
#[verifier::external_body]
fn re_split(p: &Pattern, haystack: &str) -> (r: Vec<String>)
    ensures
        r@.map_values(|s: String| s@) == regex_split(p.source_view(), haystack@),
{
    p.re.split(haystack).map(|s| s.to_string()).collect()
}

/// Calls `regex::Regex::captures` on the compiled regex of `p` and takes
/// capture group `group` of the match, as an owned string.
#[verifier::external_body]
fn re_captures_group(p: &Pattern, haystack: &str, group: usize) -> (r: Option<Option<String>>)
    ensures
        match r {
            None => regex_first_capture_group(p.source_view(), haystack@, group as nat) is None,
            Some(g) => regex_first_capture_group(p.source_view(), haystack@, group as nat)
                == Some(opt_string_view(g)),
        },
{
    p.re.captures(haystack).map(|c| c.get(group).map(|m| m.as_str().to_string()))
}

/// A regular expression together with the source text it was compiled from.
pub struct Pattern {
    source: String,
    re: ::regex::Regex,
}

impl Pattern {
    /// The source text of the regular expression.
    pub open spec fn source_view(&self) -> Seq<char> {
        self.spec_source()
    }

    /// The source text, as a specification value.
    pub closed spec fn spec_source(&self) -> Seq<char> {
        self.source@
    }

    /// Compiles `pattern` with `regex::Regex::new`; the error is the
    /// `regex` crate's.
    pub fn new(pattern: &str) -> (r: Result<Pattern, ::regex::Error>)
        ensures
            (r is Ok) == regex_compiles(pattern@),
            r matches Ok(p) ==> p.source_view() == pattern@,
    {
        match regex_new(pattern) {
            Ok(re) => Ok(Pattern { source: pattern.to_owned(), re }),
            Err(e) => Err(e),
        }
    }

    /// Compiles `pattern` with a `regex::RegexBuilder` restricted by the
    /// given limits.
    pub fn new_limited(
        pattern: &str,
        size_limit: usize,
        dfa_size_limit: usize,
        nest_limit: u32,
    ) -> (r: Result<Pattern, ::regex::Error>)
        ensures
            (r is Ok) == regex_compiles_with_limits(pattern@, size_limit, dfa_size_limit, nest_limit),
            r matches Ok(p) ==> p.source_view() == pattern@,
    {
        match regex_build_with_limits(pattern, size_limit, dfa_size_limit, nest_limit) {
            Ok(re) => Ok(Pattern { source: pattern.to_owned(), re }),
            Err(e) => Err(e),
        }
    }

    /// The source text of the regular expression.
    pub fn as_str(&self) -> (s: &str)
        ensures
            s@ == self.source_view(),
    {
        self.source.as_str()
    }

    /// Whether the pattern matches anywhere in `haystack`.
    pub fn is_match(&self, haystack: &str) -> (r: bool)
        ensures
            r == regex_is_match(self.source_view(), haystack@),
    {
        re_is_match(self, haystack)
    }

    /// For each successive match, the text of capture group `group`.
    pub fn all_captures_group(&self, haystack: &str, group: usize) -> (r: Vec<Option<String>>)
        ensures
            r@.map_values(|o: Option<String>| opt_string_view(o)) == regex_all_captures_group(
                self.source_view(),
                haystack@,
                group as nat,
            ),
    {
        re_captures_iter_group(self, haystack, group)
    }

    /// The pieces of `haystack` between the pattern's matches.
    pub fn split(&self, haystack: &str) -> (r: Vec<String>)
        ensures
            r@.map_values(|s: String| s@) == regex_split(self.source_view(), haystack@),
    {
        re_split(self, haystack)
    }

    /// For the first match, the text of capture group `group`.
    pub fn first_capture_group(&self, haystack: &str, group: usize) -> (r: Option<Option<String>>)
        ensures
            match r {
                None => regex_first_capture_group(self.source_view(), haystack@, group as nat)
                    is None,
                Some(g) => regex_first_capture_group(self.source_view(), haystack@, group as nat)
                    == Some(opt_string_view(g)),
            },
    {
        re_captures_group(self, haystack, group)
    }
}

} // verus!
