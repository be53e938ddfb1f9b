//! Terminal errors: failures that stop the durable-execution runtime from
//! retrying a handler.
use vstd::prelude::*;

use restate_sdk::errors::TerminalError;

use crate::text::{owned, push_str};

verus! {

#[verifier::external_type_specification]
#[verifier::external_body]
pub struct ExTerminalError(restate_sdk::errors::TerminalError);

/// The terminal error `TerminalError::new` makes of a message: status code
/// 500 and that message. The value is opaque here; the same message always
/// gives the same error.
pub uninterp spec fn terminal_error_new(message: Seq<char>) -> TerminalError;

/// `TerminalError::new`: the error it makes of `message`.
#[verifier::external_body]
pub(crate) fn new_terminal_error(message: String) -> (r: TerminalError)
    ensures
        r == terminal_error_new(message@),
{
    TerminalError::new(message)
}

/// The text `TerminalError`'s `Display` renders for an error:
/// `Terminal error [{code}]: {message}`.
pub uninterp spec fn terminal_error_display(e: TerminalError) -> Seq<char>;

/// `TerminalError`'s `Display` rendering (`to_string`): the error's named
/// display text, which for an error made by `TerminalError::new` (status
/// code 500) is `Terminal error [500]: {message}`.
#[verifier::external_body]
pub(crate) fn terminal_error_text(e: &TerminalError) -> (r: String)
    ensures
        r@ == terminal_error_display(*e),
        forall|m: Seq<char>| *e == terminal_error_new(m) ==> r@ == "Terminal error [500]: "@ + m,
{
    e.to_string()
}

/// The message of an error raised with a contextual prefix.
pub open spec fn prefixed_message(context: Seq<char>, error: Seq<char>) -> Seq<char> {
    context + ": "@ + error
}

/// `"{context}: {error}"`.
pub fn terminal_err_message(context: &str, error: &str) -> (r: String)
    ensures
        r@ == prefixed_message(context@, error@),
{
    let mut r = owned(context);
    push_str(&mut r, ": ");
    push_str(&mut r, error);
    r
}

/// A terminal error whose message is `"{context}: {error}"`, where `error`
/// is the display text of the underlying failure.
pub fn terminal_err(context: &str, error: &str) -> (r: TerminalError)
    ensures
        r == terminal_error_new(prefixed_message(context@, error@)),
{
    new_terminal_error(terminal_err_message(context, error))
}

} // verus!
