//! What a PAM module does around each call into the PAM library: the checks
//! made before the call, and the result made of what the call hands back.
//!
//! The calls themselves (`pam_get_data`, `pam_set_data`, `pam_get_item`,
//! `pam_set_item`, `pam_get_user`) go through raw pointers; the code that
//! makes them hands the values read here to these functions.

use vstd::prelude::*;
use vstd::utf8::{
    encode_scalar, encode_utf8, has_width_1_encoding, has_width_2_encoding,
    has_width_3_encoding, has_width_4_encoding, is_scalar, leading_byte_width_1,
    leading_byte_width_2, leading_byte_width_3, leading_byte_width_4, last_continuation_byte,
    second_last_continuation_byte, third_last_continuation_byte, valid_utf8, decode_utf8,
};

use vstd::string::StringSliceAdditionalSpecFns;

use libc::c_int;

use crate::constants::{PamFlag, PamResultCode};

verus! {

pub type PamResult<T> = Result<T, PamResultCode>;

/// Whether a C string made of `s` would end early: its UTF-8 bytes hold a 0.
pub open spec fn has_nul_byte(s: &str) -> bool {
    s.spec_bytes().contains(0u8)
}

/// The check that turning `s` into a C string makes: it fails with
/// `PAM_BUF_ERR` exactly when the bytes of `s` hold a 0 byte.
pub fn check_c_string(s: &str) -> (r: PamResult<()>)
    ensures
        r == (if has_nul_byte(s) {
            Err::<(), PamResultCode>(PamResultCode::PAM_BUF_ERR)
        } else {
            Ok::<(), PamResultCode>(())
        }),
{
    let bytes = s.as_bytes();
    let mut i: usize = 0;
    while i < bytes.len()
        invariant
            i <= bytes@.len(),
            bytes@ == s.spec_bytes(),
            forall|j: int| 0 <= j < i ==> bytes@[j] != 0u8,
        decreases bytes@.len() - i,
    {
        if bytes[i] == 0 {
            assert(bytes@[i as int] == 0u8);
            return Err(PamResultCode::PAM_BUF_ERR);
        }
        i = i + 1;
    }
    Ok(())
}

/// The UTF-8 encoding of one scalar holds a 0 byte exactly when the scalar
/// is 0: every byte of a longer encoding has its top bit set.
proof fn lemma_scalar_nul(c: u32)
    requires
        is_scalar(c),
    ensures
        encode_scalar(c).contains(0u8) <==> c == 0,
{
    if has_width_1_encoding(c) {
        assert(leading_byte_width_1(c) == 0 <==> c == 0) by (bit_vector)
            requires
                c <= 0x7F,
        ;
        assert(encode_scalar(c)[0] == leading_byte_width_1(c));
    } else if has_width_2_encoding(c) {
        assert(leading_byte_width_2(c) != 0 && last_continuation_byte(c) != 0) by (bit_vector);
        let e = encode_scalar(c);
        assert(e.len() == 2 && e[0] != 0 && e[1] != 0);
    } else if has_width_3_encoding(c) {
        assert(leading_byte_width_3(c) != 0 && second_last_continuation_byte(c) != 0
            && last_continuation_byte(c) != 0) by (bit_vector);
        let e = encode_scalar(c);
        assert(e.len() == 3 && e[0] != 0 && e[1] != 0 && e[2] != 0);
    } else {
        assert(has_width_4_encoding(c));
        assert(leading_byte_width_4(c) != 0 && third_last_continuation_byte(c) != 0
            && second_last_continuation_byte(c) != 0 && last_continuation_byte(c) != 0)
            by (bit_vector);
        let e = encode_scalar(c);
        assert(e.len() == 4 && e[0] != 0 && e[1] != 0 && e[2] != 0 && e[3] != 0);
    }
}

/// The UTF-8 bytes of a string hold a 0 byte exactly when the string holds
/// the NUL character: the check that `check_c_string` makes on bytes is the
/// same as a check on characters.
pub proof fn lemma_nul_byte_iff_nul_char(chars: Seq<char>)
    ensures
        encode_utf8(chars).contains(0u8) <==> chars.contains('\0'),
    decreases chars.len(),
{
    if chars.len() > 0 {
        let first = chars[0] as u32;
        let rest = chars.drop_first();
        vstd::utf8::char_is_scalar(chars[0]);
        lemma_scalar_nul(first);
        lemma_nul_byte_iff_nul_char(rest);
        let e = encode_scalar(first);
        let r = encode_utf8(rest);
        assert(encode_utf8(chars) == e + r);
        if (e + r).contains(0u8) {
            let k = choose|k: int| 0 <= k < (e + r).len() && (e + r)[k] == 0u8;
            if k < e.len() {
                assert(e[k] == 0u8);
                assert(first == 0);
                vstd::utf8::char_u32_cast('\0', 0u32);
                vstd::utf8::char_u32_cast(chars[0], first);
                assert(chars[0] == '\0');
            } else {
                assert(r[k - e.len()] == 0u8);
                let m = choose|m: int| 0 <= m < rest.len() && rest[m] == '\0';
                assert(chars[m + 1] == '\0');
            }
        }
        if chars.contains('\0') {
            let m = choose|m: int| 0 <= m < chars.len() && chars[m] == '\0';
            if m == 0 {
                assert(first == 0);
                assert(e.contains(0u8));
                let k = choose|k: int| 0 <= k < e.len() && e[k] == 0u8;
                assert((e + r)[k] == 0u8);
            } else {
                assert(rest[m - 1] == '\0');
                let k = choose|k: int| 0 <= k < r.len() && r[k] == 0u8;
                assert((e + r)[k + e.len()] == 0u8);
            }
        }
    }
}

/// A string is refused as a C string exactly when it holds the NUL
/// character.
pub proof fn lemma_c_string_refused_iff_nul(s: &str)
    ensures
        has_nul_byte(s) <==> s@.contains('\0'),
{
    lemma_nul_byte_iff_nul_char(s@);
}

/// The result of a PAM call, as its raw return value tells it.
pub open spec fn spec_status(raw: c_int) -> PamResult<()> {
    let code = PamResultCode::spec_from_raw(raw);
    if code == PamResultCode::PAM_SUCCESS {
        Ok(())
    } else {
        Err(code)
    }
}

/// Turns the raw return value of a PAM call into a result: `Ok` for
/// `PAM_SUCCESS`, else the code that the value names (`PAM_SYSTEM_ERR` for
/// a value that names none). This is all that `set_data` and `set_item_str`
/// make of the call's answer.
pub fn status(raw: c_int) -> (r: PamResult<()>)
    ensures
        r == spec_status(raw),
        raw == 0 ==> r == Ok::<(), PamResultCode>(()),
        0 < raw <= 31 ==> (r matches Err(e) && e as int == raw),
        (raw < 0 || raw > 31) ==> r == Err::<(), PamResultCode>(PamResultCode::PAM_SYSTEM_ERR),
{
    let code = PamResultCode::from_raw(raw);
    if code == PamResultCode::PAM_SUCCESS {
        Ok(())
    } else {
        Err(code)
    }
}

/// A call succeeds exactly when it returns 0; a failing call is answered
/// with the code it returned where that is a known code, else with
/// `PAM_SYSTEM_ERR`, and never with `PAM_SUCCESS`.
pub proof fn lemma_status_exact(raw: c_int)
    ensures
        spec_status(raw) is Ok <==> raw == 0,
        spec_status(raw) matches Err(e) ==> e != PamResultCode::PAM_SUCCESS,
        spec_status(raw) matches Err(e) ==> (0 < raw <= 31 ==> e as int == raw),
        (raw < 0 || raw > 31) ==> spec_status(raw) == Err::<(), PamResultCode>(
            PamResultCode::PAM_SYSTEM_ERR,
        ),
{
    crate::constants::lemma_decode_exact(raw);
    crate::constants::lemma_decode_by_declared_number(raw);
}

/// The result of a lookup that hands back a pointer (`get_data`,
/// `get_user`): the call's own result, and `PAM_SYSTEM_ERR` where the call
/// succeeds but the pointer is null.
pub open spec fn spec_lookup_status(raw: c_int, is_null: bool) -> PamResult<()> {
    match spec_status(raw) {
        Err(e) => Err(e),
        Ok(()) => if is_null {
            Err(PamResultCode::PAM_SYSTEM_ERR)
        } else {
            Ok(())
        },
    }
}

/// What `get_data` and `get_user` make of the call's answer; only on `Ok`
/// does the caller read through the pointer.
pub fn lookup_status(raw: c_int, is_null: bool) -> (r: PamResult<()>)
    ensures
        r == spec_lookup_status(raw, is_null),
        0 < raw <= 31 ==> (r matches Err(e) && e as int == raw),
        (raw < 0 || raw > 31) ==> r == Err::<(), PamResultCode>(PamResultCode::PAM_SYSTEM_ERR),
        raw == 0 ==> (r == if is_null {
            Err::<(), PamResultCode>(PamResultCode::PAM_SYSTEM_ERR)
        } else {
            Ok(())
        }),
{
    status(raw)?;
    if is_null {
        Err(PamResultCode::PAM_SYSTEM_ERR)
    } else {
        Ok(())
    }
}

/// What `get_item` makes of the call's answer: the call's own result, and
/// on success whether an item is there (`false` for a null pointer, which
/// the item reads as `None`).
pub fn item_status(raw: c_int, is_null: bool) -> (r: PamResult<bool>)
    ensures
        r == (match spec_status(raw) {
            Err(e) => Err(e),
            Ok(()) => Ok::<bool, PamResultCode>(!is_null),
        }),
        raw == 0 ==> r == Ok::<bool, PamResultCode>(!is_null),
        0 < raw <= 31 ==> (r matches Err(e) && e as int == raw),
        (raw < 0 || raw > 31) ==> r == Err::<bool, PamResultCode>(PamResultCode::PAM_SYSTEM_ERR),
{
    status(raw)?;
    Ok(!is_null)
}

/// The check that `get_user` makes on its prompt before the call: a prompt
/// is refused with `PAM_BUF_ERR` where its bytes hold a 0; no prompt is
/// always accepted.
pub fn check_prompt(prompt: Option<&str>) -> (r: PamResult<()>)
    ensures
        r == (match prompt {
            Some(p) => if has_nul_byte(p) {
                Err::<(), PamResultCode>(PamResultCode::PAM_BUF_ERR)
            } else {
                Ok(())
            },
            None => Ok(()),
        }),
{
    match prompt {
        Some(p) => check_c_string(p),
        None => Ok(()),
    }
}

/// Converts bytes to a `String` where they are valid UTF-8.
///
/// Trusted: `String::from_utf8` (std) accepts exactly the valid UTF-8 byte
/// sequences and keeps their characters; `valid_utf8` and `decode_utf8` are
/// vstd's statement of what that means.
#[verifier::external_body]
fn string_from_utf8(bytes: Vec<u8>) -> (r: Option<String>)
    ensures
        r is Some <==> valid_utf8(bytes@),
        r matches Some(s) ==> s@ == decode_utf8(bytes@),
{
    String::from_utf8(bytes).ok()
}

/// The user name that `get_user` hands back for the bytes that PAM gave:
/// their characters where they are valid UTF-8, else `PAM_SYSTEM_ERR`.
pub open spec fn spec_user_name(bytes: Seq<u8>) -> PamResult<Seq<char>> {
    if valid_utf8(bytes) {
        Ok(decode_utf8(bytes))
    } else {
        Err(PamResultCode::PAM_SYSTEM_ERR)
    }
}

/// Turns the bytes of the user name that PAM gave into a `String`;
/// bytes that are not UTF-8 are refused with `PAM_SYSTEM_ERR`.
pub fn user_name(bytes: Vec<u8>) -> (r: PamResult<String>)
    ensures
        r.is_ok() == spec_user_name(bytes@).is_ok(),
        r matches Ok(s) ==> spec_user_name(bytes@) == Ok::<Seq<char>, PamResultCode>(s@),
        r matches Err(e) ==> e == PamResultCode::PAM_SYSTEM_ERR,
{
    match string_from_utf8(bytes) {
        Some(s) => Ok(s),
        None => Err(PamResultCode::PAM_SYSTEM_ERR),
    }
}

/// Whatever user name a PAM stack stores, `get_user` gives back the same
/// characters: the UTF-8 bytes of any name decode to that name.
pub proof fn lemma_user_name_roundtrip(name: Seq<char>)
    ensures
        spec_user_name(encode_utf8(name)) == Ok::<Seq<char>, PamResultCode>(name),
{
    vstd::utf8::encode_utf8_valid_utf8(name);
    vstd::utf8::encode_utf8_decode_utf8(name);
}

/// Opaque type, used as a pointer when making pam API calls.
///
/// A module is invoked via an external function such as `pam_sm_authenticate`.
/// Such a call provides a pam handle pointer.  The same pointer should be given
/// as an argument when making API calls. No value of this type is ever made
/// in Rust: it only stands behind such pointers.
pub struct PamHandle {
    _data: [u8; 0],
}

/// Provides functions that are invoked by the entrypoints that a PAM module
/// exports.
///
/// All of hooks are ignored by PAM dispatch by default given the default return
/// value of `PAM_IGNORE`. Override any functions that you want to handle with
/// your module. See `man pam(3)`. Each argument of the module's line in the PAM
/// configuration comes as its bytes, without the C terminator.
#[allow(unused_variables)]
pub trait PamHooks {
    /// This function performs the task of establishing whether the user is permitted to gain access at
    /// this time. It should be understood that the user has previously been validated by an
    /// authentication module. This function checks for other things. Such things might be: the time of
    /// day or the date, the terminal line, remote hostname, etc. This function may also determine
    /// things like the expiration on passwords, and respond that the user change it before continuing.
    fn acct_mgmt(pamh: &mut PamHandle, args: Vec<&[u8]>, flags: PamFlag) -> (r: PamResultCode)
        default_ensures
            r == PamResultCode::PAM_IGNORE,
    {
        PamResultCode::PAM_IGNORE
    }

    /// This function performs the task of authenticating the user.
    fn sm_authenticate(pamh: &mut PamHandle, args: Vec<&[u8]>, flags: PamFlag) -> (r:
        PamResultCode)
        default_ensures
            r == PamResultCode::PAM_IGNORE,
    {
        PamResultCode::PAM_IGNORE
    }

    /// This function is used to (re-)set the authentication token of the user.
    ///
    /// The PAM library calls this function twice in succession. The first time with
    /// `PAM_PRELIM_CHECK` and then, if the module does not return `PAM_TRY_AGAIN`, subsequently with
    /// `PAM_UPDATE_AUTHTOK`. It is only on the second call that the authorization token is
    /// (possibly) changed.
    fn sm_chauthtok(pamh: &mut PamHandle, args: Vec<&[u8]>, flags: PamFlag) -> (r: PamResultCode)
        default_ensures
            r == PamResultCode::PAM_IGNORE,
    {
        PamResultCode::PAM_IGNORE
    }

    /// This function is called to terminate a session.
    fn sm_close_session(pamh: &mut PamHandle, args: Vec<&[u8]>, flags: PamFlag) -> (r:
        PamResultCode)
        default_ensures
            r == PamResultCode::PAM_IGNORE,
    {
        PamResultCode::PAM_IGNORE
    }

    /// This function is called to commence a session.
    fn sm_open_session(pamh: &mut PamHandle, args: Vec<&[u8]>, flags: PamFlag) -> (r:
        PamResultCode)
        default_ensures
            r == PamResultCode::PAM_IGNORE,
    {
        PamResultCode::PAM_IGNORE
    }

    /// This function performs the task of altering the credentials of the user with respect to the
    /// corresponding authorization scheme. Generally, an authentication module may have access to more
    /// information about a user than their authentication token. This function is used to make such
    /// information available to the application. It should only be called after the user has been
    /// authenticated but before a session has been established.
    fn sm_setcred(pamh: &mut PamHandle, args: Vec<&[u8]>, flags: PamFlag) -> (r: PamResultCode)
        default_ensures
            r == PamResultCode::PAM_IGNORE,
    {
        PamResultCode::PAM_IGNORE
    }
}

/// A lookup whose call fails answers with the code that the call returned
/// (the result code declared with that number, `PAM_SYSTEM_ERR` for a
/// number that no code has), whether or not the pointer is null; only after
/// a call that returned 0 does the pointer count, a null one giving
/// `PAM_SYSTEM_ERR`.
pub proof fn lemma_lookup_status_exact(raw: c_int, is_null: bool)
    ensures
        raw != 0 ==> spec_lookup_status(raw, is_null) == spec_lookup_status(raw, !is_null),
        0 < raw <= 31 ==> (spec_lookup_status(raw, is_null) matches Err(e) && e as int == raw),
        (raw < 0 || raw > 31) ==> spec_lookup_status(raw, is_null) == Err::<(), PamResultCode>(
            PamResultCode::PAM_SYSTEM_ERR,
        ),
        spec_lookup_status(0, false) == Ok::<(), PamResultCode>(()),
        spec_lookup_status(0, true) == Err::<(), PamResultCode>(PamResultCode::PAM_SYSTEM_ERR),
{
    lemma_status_exact(raw);
    lemma_status_exact(0);
}

} // verus!
