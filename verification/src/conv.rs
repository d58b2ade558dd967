//! The conversation: how a module sends a message to the user through the
//! PAM client and what it makes of the client's answer.
//!
//! The conversation function is a C function pointer that the client
//! registered; the code that calls it hands the values read here to these
//! functions, before the call and after it.

use vstd::prelude::*;

use libc::c_int;

use crate::constants::{
    PamMessageStyle, PamResultCode, PAM_ERROR_MSG, PAM_PROMPT_ECHO_OFF, PAM_PROMPT_ECHO_ON,
    PAM_RADIO_TYPE, PAM_TEXT_INFO,
};
use crate::module::{check_c_string, has_nul_byte, spec_status, status, PamResult};

verus! {

/// The message styles that `send` supports: the five string-based ones.
/// Binary prompts and unknown styles are not among them.
pub open spec fn is_string_style(style: PamMessageStyle) -> bool {
    style == PAM_PROMPT_ECHO_OFF || style == PAM_PROMPT_ECHO_ON || style == PAM_ERROR_MSG
        || style == PAM_TEXT_INFO || style == PAM_RADIO_TYPE
}

/// What `send` answers before it calls the conversation function, in the
/// order in which it checks: an unsupported style, then a missing
/// conversation function (both `PAM_CONV_ERR`), then a message whose bytes
/// hold a 0 (`PAM_BUF_ERR`); `Ok` where the call is to be made.
pub open spec fn spec_send_prepare(style: PamMessageStyle, has_conv: bool, msg: &str) -> PamResult<
    (),
> {
    if !is_string_style(style) {
        Err(PamResultCode::PAM_CONV_ERR)
    } else if !has_conv {
        Err(PamResultCode::PAM_CONV_ERR)
    } else if has_nul_byte(msg) {
        Err(PamResultCode::PAM_BUF_ERR)
    } else {
        Ok(())
    }
}

/// The checks that `send` makes before it calls the conversation function;
/// `has_conv` tells whether the client registered one.
pub fn send_prepare(style: PamMessageStyle, has_conv: bool, msg: &str) -> (r: PamResult<()>)
    ensures
        r == spec_send_prepare(style, has_conv, msg),
{
    if !(style == PAM_PROMPT_ECHO_OFF || style == PAM_PROMPT_ECHO_ON || style == PAM_ERROR_MSG
        || style == PAM_TEXT_INFO || style == PAM_RADIO_TYPE) {
        return Err(PamResultCode::PAM_CONV_ERR);
    }
    if !has_conv {
        return Err(PamResultCode::PAM_CONV_ERR);
    }
    check_c_string(msg)
}

/// What `send` makes of the conversation function's answer: the call's own
/// result, and `PAM_CONV_ERR` where the call succeeds but hands back no
/// response array. Only on `Ok` is the response read (and freed).
pub open spec fn spec_send_status(raw: c_int, response_is_null: bool) -> PamResult<()> {
    match spec_status(raw) {
        Err(e) => Err(e),
        Ok(()) => if response_is_null {
            Err(PamResultCode::PAM_CONV_ERR)
        } else {
            Ok(())
        },
    }
}

/// Turns the conversation function's return value, and whether the response
/// array it handed back is null, into the result of `send`.
pub fn send_status(raw: c_int, response_is_null: bool) -> (r: PamResult<()>)
    ensures
        r == spec_send_status(raw, response_is_null),
        0 < raw <= 31 ==> (r matches Err(e) && e as int == raw),
        (raw < 0 || raw > 31) ==> r == Err::<(), PamResultCode>(PamResultCode::PAM_SYSTEM_ERR),
        raw == 0 ==> (r == if response_is_null {
            Err::<(), PamResultCode>(PamResultCode::PAM_CONV_ERR)
        } else {
            Ok(())
        }),
{
    status(raw)?;
    if response_is_null {
        Err(PamResultCode::PAM_CONV_ERR)
    } else {
        Ok(())
    }
}

/// A style that `send` does not support is refused with `PAM_CONV_ERR`
/// whatever the message and whether or not a conversation function is
/// there: the conversation function never sees it.
pub proof fn lemma_unsupported_style_refused(style: PamMessageStyle, has_conv: bool, msg: &str)
    requires
        !is_string_style(style),
    ensures
        spec_send_prepare(style, has_conv, msg) == Err::<(), PamResultCode>(
            PamResultCode::PAM_CONV_ERR,
        ),
{
}

/// `send` goes on to call the conversation function exactly when the style is
/// a string style, a conversation function is there, and the message holds
/// no NUL character.
pub proof fn lemma_send_goes_ahead(style: PamMessageStyle, has_conv: bool, msg: &str)
    ensures
        spec_send_prepare(style, has_conv, msg) is Ok <==> (is_string_style(style) && has_conv
            && !msg@.contains('\0')),
{
    crate::module::lemma_c_string_refused_iff_nul(msg);
}

/// A conversation call that fails is answered with the code it returned
/// (the result code declared with that number, `PAM_SYSTEM_ERR` for a
/// number that no code has), whatever the response pointer; only after a
/// call that returned 0 does a null response count, giving `PAM_CONV_ERR`.
pub proof fn lemma_send_status_exact(raw: c_int, response_is_null: bool)
    ensures
        raw != 0 ==> spec_send_status(raw, response_is_null) == spec_send_status(
            raw,
            !response_is_null,
        ),
        0 < raw <= 31 ==> (spec_send_status(raw, response_is_null) matches Err(e) && e as int
            == raw),
        (raw < 0 || raw > 31) ==> spec_send_status(raw, response_is_null) == Err::<
            (),
            PamResultCode,
        >(PamResultCode::PAM_SYSTEM_ERR),
        spec_send_status(0, false) == Ok::<(), PamResultCode>(()),
        spec_send_status(0, true) == Err::<(), PamResultCode>(PamResultCode::PAM_CONV_ERR),
{
    crate::module::lemma_status_exact(raw);
    crate::module::lemma_status_exact(0);
}

/// Which error `send` answers before the call: `PAM_CONV_ERR` for an
/// unsupported style or, with a supported style, for a missing conversation
/// function, whatever the message; `PAM_BUF_ERR` only for a supported style
/// with a conversation function and a message that holds the NUL
/// character.
pub proof fn lemma_send_prepare_errors(style: PamMessageStyle, has_conv: bool, msg: &str)
    ensures
        (!is_string_style(style) || !has_conv) ==> spec_send_prepare(style, has_conv, msg)
            == Err::<(), PamResultCode>(PamResultCode::PAM_CONV_ERR),
        (is_string_style(style) && has_conv && msg@.contains('\0')) ==> spec_send_prepare(
            style,
            has_conv,
            msg,
        ) == Err::<(), PamResultCode>(PamResultCode::PAM_BUF_ERR),
        (is_string_style(style) && has_conv && !msg@.contains('\0')) ==> spec_send_prepare(
            style,
            has_conv,
            msg,
        ) == Ok::<(), PamResultCode>(()),
        is_string_style(style) <==> (1 <= style <= 5),
{
    crate::module::lemma_c_string_refused_iff_nul(msg);
}

} // verus!
