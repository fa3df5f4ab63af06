//! The structured view of one parsed commit message.

use vstd::prelude::*;

verus! {

/// One parsed commit message, as the parser produced it.
///
/// `raw` always holds the exact source text; every other field is `None`
/// exactly when the parser found no corresponding syntax in `raw`.
#[derive(Clone, Debug)]
pub struct Message {
    /// Free-form body below the header, if any.
    pub body: Option<String>,
    /// The subject after `type(scope): `, if any.
    pub description: Option<String>,
    /// Trailing key/value entries such as `Reviewed-by: X`, if any.
    pub footers: Option<Vec<(String, String)>>,
    /// The commit category such as `feat` or `fix`, if any.
    pub commit_type: Option<String>,
    /// The original unparsed text.
    pub raw: String,
    /// The parenthesized qualifier of the header, if any.
    pub scope: Option<String>,
}

} // verus!
