//! The close codes of the upstream connection, as `reqwest_websocket` has them.
use vstd::prelude::*;

verus! {

/// The close code type of `reqwest_websocket`. Its values are carried, never
/// looked into: what is known of one is its number.
#[verifier::external_type_specification]
#[verifier::external_body]
pub struct ExCloseCode(reqwest_websocket::CloseCode);

/// The number that `u16::from` gives for a close code.
pub uninterp spec fn close_code_number(code: reqwest_websocket::CloseCode) -> u16;

/// The close code that `CloseCode::from` gives for a number.
pub uninterp spec fn close_code_of(number: u16) -> reqwest_websocket::CloseCode;

/// Calls `<reqwest_websocket::CloseCode as From<u16>>::from`.
///
/// Claimed of it: the result is a function of the number, and it keeps the
/// number, in that `u16::from` gives it back. The conversion has an arm for
/// each registered code, and puts every other number into a variant that holds
/// it.
#[verifier::external_body]
pub(crate) fn close_code_from_number(number: u16) -> (code: reqwest_websocket::CloseCode)
    ensures
        code == close_code_of(number),
        close_code_number(code) == number,
{
    reqwest_websocket::CloseCode::from(number)
}

/// Calls `<u16 as From<reqwest_websocket::CloseCode>>::from`.
///
/// Claimed of it: the result is a function of the close code.
#[verifier::external_body]
pub(crate) fn number_of_close_code(code: reqwest_websocket::CloseCode) -> (number: u16)
    ensures
        number == close_code_number(code),
{
    u16::from(code)
}

} // verus!
