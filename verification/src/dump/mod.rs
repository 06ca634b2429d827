//! Wikimedia data dumps: their types, the namespaces of their pages, and
//! where their files are kept locally.

pub mod local;
pub mod pages;
pub mod namespace;
pub mod types;

use types::DumpName;

use vstd::prelude::*;

verus! {

/// The URL base of the live wiki that a dump comes from, for the dumps the
/// library knows: `enwiki` and `simplewiki`.
pub open spec fn wikimedia_url_base(dump: Seq<char>) -> Option<Seq<char>> {
    if dump == "enwiki"@ {
        Some("https://en.wikipedia.org/wiki"@)
    } else if dump == "simplewiki"@ {
        Some("https://simple.wikipedia.org/wiki"@)
    } else {
        None
    }
}

/// The URL base of the live wiki for a dump name, if the library knows it.
pub fn dump_name_to_wikimedia_url_base(dump: &DumpName) -> (r: Option<String>)
    ensures
        crate::patterns::opt_string_view(r) == wikimedia_url_base(dump.0@),
{
    if crate::text::str_eq(dump.0.as_str(), "enwiki") {
        Some("https://en.wikipedia.org/wiki".to_owned())
    } else if crate::text::str_eq(dump.0.as_str(), "simplewiki") {
        Some("https://simple.wikipedia.org/wiki".to_owned())
    } else {
        None
    }
}

} // verus!
