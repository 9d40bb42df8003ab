//! The text that reports an HTTP status: its number and its reason phrase.

use vstd::prelude::*;
use crate::decimal::{decimal_digits, decimal_string};

verus! {

/// The lowest number that is an HTTP status code.
pub const MIN_STATUS: u16 = 100;

/// The highest number that is an HTTP status code.
pub const MAX_STATUS: u16 = 999;

/// The reason phrase that the `http` crate holds for the status code `code`,
/// or `None` where it holds none. The phrases are that crate's table; this
/// library states nothing of what they are.
pub uninterp spec fn canonical_phrase(code: u16) -> Option<Seq<char>>;

/// The characters of an optional piece of text.
pub open spec fn phrase_view(phrase: Option<&str>) -> Option<Seq<char>> {
    match phrase {
        Some(p) => Some(p@),
        None => None,
    }
}

/// Calls `http::StatusCode::from_u16` and, on the status it gives,
/// `http::StatusCode::canonical_reason`. For a number from 100 to 999 the
/// first always gives a status, and the second looks the number up in the
/// crate's fixed table of phrases. The contract claims only that the answer
/// is that table's entry, which `canonical_phrase` names.
#[verifier::external_body]
fn canonical_reason(code: u16) -> (phrase: Option<&'static str>)
    requires
        MIN_STATUS <= code <= MAX_STATUS,
    ensures
        phrase_view(phrase) == canonical_phrase(code),
{
    match http::StatusCode::from_u16(code) {
        Ok(status) => status.canonical_reason(),
        Err(_) => None,
    }
}

/// The reason phrase of `code`: the canonical one where `code` is a status
/// code that has one, and none for every other number.
pub open spec fn reason_for(code: u16) -> Option<Seq<char>> {
    if MIN_STATUS <= code <= MAX_STATUS {
        canonical_phrase(code)
    } else {
        None
    }
}

/// The report of a status: the category, a colon, the code in decimal, and the
/// reason phrase, or the word "unknown" where there is none.
pub open spec fn status_text(category: Seq<char>, code: u16, phrase: Option<Seq<char>>) -> Seq<
    char,
> {
    category + ": "@ + decimal_digits(code as nat) + " "@ + match phrase {
        Some(p) => p,
        None => "unknown"@,
    }
}

/// Writes the report of a status whose reason phrase is already known.
pub fn status_line(category: &str, code: u16, phrase: Option<&str>) -> (line: String)
    ensures
        line@ == status_text(category@, code, phrase_view(phrase)),
{
    let mut line = String::from_str(category);
    line.append(": ");
    let digits = decimal_string(code as u128);
    line.append(digits.as_str());
    line.append(" ");
    match phrase {
        Some(p) => line.append(p),
        None => line.append("unknown"),
    }
    line
}

/// Looks up the reason phrase of `code` and writes the report of the status.
/// A number that is no status code has no phrase, and is reported as any code
/// without one.
pub fn render_status(category: &str, code: u16) -> (line: String)
    ensures
        line@ == status_text(category@, code, reason_for(code)),
{
    if MIN_STATUS <= code && code <= MAX_STATUS {
        let phrase = canonical_reason(code);
        status_line(category, code, phrase)
    } else {
        status_line(category, code, None)
    }
}

/// A status without a reason phrase is reported with the word "unknown" in
/// the phrase's place, whatever the code.
pub proof fn lemma_unknown_without_phrase(category: Seq<char>, code: u16)
    requires
        reason_for(code) is None,
    ensures
        status_text(category, code, reason_for(code)) == category + ": "@ + decimal_digits(
            code as nat,
        ) + " unknown"@,
{
    reveal_strlit(" ");
    reveal_strlit("unknown");
    reveal_strlit(" unknown");
    assert(" "@ + "unknown"@ =~= " unknown"@);
    let head = category + ": "@ + decimal_digits(code as nat);
    assert(head + " "@ + "unknown"@ =~= head + (" "@ + "unknown"@));
}

} // verus!
