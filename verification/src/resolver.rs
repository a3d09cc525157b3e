//! From the output of the title lookup to a title.
//!
//! The lookup itself runs an outside tool and is left to the caller. What the
//! tool printed is judged here.

use crate::error::Error;
use vstd::prelude::*;

verus! {

/// What `str::trim` leaves of a text: the text without the whitespace at its
/// start and at its end.
pub uninterp spec fn trimmed(text: Seq<char>) -> Seq<char>;

/// Strips the whitespace at both ends of `text` with `str::trim`.
///
/// Trusted: the result is named, not spelled out. What counts as whitespace
/// is a matter of Unicode's tables, which `str::trim` consults.
#[verifier::external_body]
fn trim(text: &str) -> (rest: &str)
    ensures
        rest@ == trimmed(text@),
{
    text.trim()
}

/// The title that the lookup tool printed.
///
/// The tool prints the title on a line of its own and prints nothing when it
/// cannot find one. So empty output is a failed resolution, and any other
/// output, trimmed, is the title.
pub fn get_title(output: &str) -> (title: Result<String, Error>)
    ensures
        match title {
            Ok(title) => output@.len() > 0 && title@ == trimmed(output@),
            Err(error) => output@.len() == 0 && error == Error::ResolutionFailed,
        },
{
    if !output.is_empty() {
        Ok(trim(output).to_owned())
    } else {
        Err(Error::ResolutionFailed)
    }
}

} // verus!
