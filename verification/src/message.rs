//! The parsed representation of one commit message.

use vstd::prelude::*;

verus! {

/// An immutable snapshot of one commit message, as produced by an external
/// commit-text parser. The core rules only read it.
pub struct Message {
    /// The full original commit text.
    pub raw: String,
    /// The first-line / header text, when present.
    pub subject: Option<String>,
    /// The remaining text after the header, possibly multi-line.
    pub body: Option<String>,
    /// The description part of a conventional-commit header.
    pub description: Option<String>,
    /// The commit type of a conventional-commit header (for example `feat`).
    pub commit_type: Option<String>,
    /// The scope of a conventional-commit header.
    pub scope: Option<String>,
    /// Structured trailer data, as key/value pairs.
    pub footers: Option<Vec<(String, String)>>,
}

/// The text of an optional field, the empty sequence when it is absent.
pub open spec fn opt_text(field: Option<String>) -> Seq<char> {
    match field {
        Option::Some(s) => s@,
        Option::None => Seq::empty(),
    }
}

/// Returns the text of an optional field, the empty string when it is absent.
pub fn opt_str(field: &Option<String>) -> (r: &str)
    ensures
        r@ == opt_text(*field),
{
    match field {
        Option::Some(s) => s.as_str(),
        Option::None => {
            proof {
                reveal_strlit("");
                assert(""@ =~= Seq::<char>::empty());
            }
            ""
        },
    }
}

} // verus!
