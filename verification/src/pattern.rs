//! The ticket-ID pattern and the regex calls behind it.

use vstd::prelude::*;

verus! {

/// The pattern a ticket identifier must match: `#`, one or more uppercase
/// letters, `-`, one or more digits (for example `#BOS-494`).
pub open spec fn spec_ticket_pattern() -> Seq<char> {
    "#[A-Z]+-\\d+"@
}

/// Returns the ticket pattern as executable text.
pub fn ticket_pattern_str() -> (r: &'static str)
    ensures
        r@ == spec_ticket_pattern(),
{
    "#[A-Z]+-\\d+"
}

/// The outcome of compiling `pattern` with the regex crate and testing it
/// against `haystack`: `Ok(b)` when the pattern compiles, where `b` says
/// whether it matches anywhere in the haystack; `Err(e)` with the rendered
/// compiler error when it does not compile.
pub uninterp spec fn regex_scan(pattern: Seq<char>, haystack: Seq<char>) -> Result<bool, Seq<char>>;

/// Whether the ticket pattern compiles and matches somewhere in `text`.
pub open spec fn ticket_hit(text: Seq<char>) -> bool {
    regex_scan(spec_ticket_pattern(), text) == Result::<bool, Seq<char>>::Ok(true)
}

/// Relies on `regex::Regex::new` and `regex::Regex::is_match`: whether the
/// pattern compiles, the rendered error when it does not, and whether a
/// compiled pattern matches anywhere in the haystack are all functions of the
/// two strings alone.
#[verifier::external_body]
pub(crate) fn regex_is_match(pattern: &str, haystack: &str) -> (r: Result<bool, String>)
    ensures
        (match r {
            Ok(b) => regex_scan(pattern@, haystack@) == Result::<bool, Seq<char>>::Ok(b),
            Err(e) => regex_scan(pattern@, haystack@) == Result::<bool, Seq<char>>::Err(e@),
        }),
{
    match regex::Regex::new(pattern) {
        Ok(re) => Ok(re.is_match(haystack)),
        Err(e) => Err(format!("{}", e)),
    }
}

} // verus!
