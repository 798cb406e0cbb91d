//! Argument checks of the `app` subcommands that the library decides.

use vstd::prelude::*;

use crate::error::AppError;
use crate::text::{parse_u16, parse_u16_spec};

verus! {

/// A subcommand that enters text into the page.
#[derive(Clone, Copy, Debug, PartialEq, Eq, Structural)]
pub enum TextAction {
    /// `app type`: type text into an element.
    Type,
    /// `app fill`: fill an input element with text.
    Fill,
}

/// Message when `type` or `fill` has neither text nor a snapshot reference.
pub open spec fn missing_text_message(action: TextAction) -> Seq<char> {
    match action {
        TextAction::Type => "Text is required. Use --ref <ID> to type into a snapshot reference, or provide text directly."@,
        TextAction::Fill => "Text is required. Use --ref <ID> to fill a snapshot reference, or provide text directly."@,
    }
}

/// The text that `type` or `fill` enters: an error when neither text nor a
/// snapshot reference is given; the empty text when only the reference is.
pub fn text_to_enter(action: TextAction, text: Option<&str>, ref_id: Option<&str>) -> (r: Result<String, AppError>)
    ensures
        text is None && ref_id is None ==> (r matches Err(AppError::InvalidArgument(m)) && m@ == missing_text_message(action)),
        text matches Some(t) ==> (r matches Ok(s) && s@ == t@),
        text is None && ref_id is Some ==> (r matches Ok(s) && s@ == Seq::<char>::empty()),
{
    match text {
        Some(t) => Ok(String::from_str(t)),
        None => {
            if ref_id.is_none() {
                let m = match action {
                    TextAction::Type => String::from_str("Text is required. Use --ref <ID> to type into a snapshot reference, or provide text directly."),
                    TextAction::Fill => String::from_str("Text is required. Use --ref <ID> to fill a snapshot reference, or provide text directly."),
                };
                Err(AppError::InvalidArgument(m))
            } else {
                let e = String::new();
                Ok(e)
            }
        },
    }
}

/// The DevTools port that `app launch` asks for: the `--cdp` option when it
/// is a port number, else none (the launcher then picks one).
pub fn launch_port(cdp: Option<&str>) -> (r: Option<u16>)
    ensures
        cdp matches Some(c) ==> r == parse_u16_spec(c@),
        cdp is None ==> r is None,
{
    match cdp {
        Some(c) => parse_u16(c),
        None => None,
    }
}

} // verus!
