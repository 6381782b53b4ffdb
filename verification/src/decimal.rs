//! Exact decimal numbers read through the `bigdecimal` crate.

use std::str::FromStr;
use vstd::prelude::*;

verus! {

/// What `BigDecimal::from_str` makes of `text`: on success, the decimal as a
/// `BigDecimal` displays it (the form in which it is serialized); on failure,
/// the message that `ParseBigDecimalError` displays.
pub uninterp spec fn bigdecimal_from_text(text: Seq<char>) -> Result<Seq<char>, Seq<char>>;

/// Calls `BigDecimal::from_str` and turns the decimal it reads into its
/// display text, and an error into its message. The contract ties both to the
/// name `bigdecimal_from_text`; the crate's number grammar and display rules
/// are not written out here.
#[verifier::external_body]
pub(crate) fn parse_bigdecimal(text: &str) -> (res: Result<String, String>)
    ensures
        match res {
            Ok(shown) => bigdecimal_from_text(text@) == Ok::<Seq<char>, Seq<char>>(shown@),
            Err(msg) => bigdecimal_from_text(text@) == Err::<Seq<char>, Seq<char>>(msg@),
        },
{
    match bigdecimal::BigDecimal::from_str(text) {
        Ok(d) => Ok(d.to_string()),
        Err(e) => Err(e.to_string()),
    }
}

} // verus!
