//! The constants of the Linux-PAM interface: flags, message styles and the
//! result codes that every PAM call and every module hook returns.

use vstd::prelude::*;
use vstd::std_specs::convert::TryFromSpecImpl;

use libc::{c_int, c_uint};

verus! {

pub type PamFlag = c_uint;

pub type PamItemType = c_int;

pub type PamMessageStyle = c_int;

// The Linux-PAM flags, as `_pam_types.h` defines them.
pub const PAM_SILENT: PamFlag = 0x8000;

pub const PAM_DISALLOW_NULL_AUTHTOK: PamFlag = 0x0001;

pub const PAM_ESTABLISH_CRED: PamFlag = 0x0002;

pub const PAM_DELETE_CRED: PamFlag = 0x0004;

pub const PAM_REINITIALIZE_CRED: PamFlag = 0x0008;

pub const PAM_REFRESH_CRED: PamFlag = 0x0010;

pub const PAM_CHANGE_EXPIRED_AUTHTOK: PamFlag = 0x0020;

// Message styles of the conversation.
pub const PAM_PROMPT_ECHO_OFF: PamMessageStyle = 1;

pub const PAM_PROMPT_ECHO_ON: PamMessageStyle = 2;

pub const PAM_ERROR_MSG: PamMessageStyle = 3;

pub const PAM_TEXT_INFO: PamMessageStyle = 4;

pub const PAM_RADIO_TYPE: PamMessageStyle = 5;

/// Binary prompts have no sending interface here, so the style stays
/// inside the crate: `send_prepare` rejects it like an unknown style.
#[allow(dead_code)]
pub(crate) const PAM_BINARY_PROMPT: PamMessageStyle = 7;

/// The Linux-PAM return values, as `_pam_types.h` numbers them: the `n`-th
/// variant stands for the value `n` (see [`PamResultCode::code`]).
#[allow(non_camel_case_types)]
#[derive(Debug, Clone, Copy, PartialEq, Eq, Structural)]
#[non_exhaustive]
pub enum PamResultCode {
    PAM_SUCCESS,
    PAM_OPEN_ERR,
    PAM_SYMBOL_ERR,
    PAM_SERVICE_ERR,
    PAM_SYSTEM_ERR,
    PAM_BUF_ERR,
    PAM_PERM_DENIED,
    PAM_AUTH_ERR,
    PAM_CRED_INSUFFICIENT,
    PAM_AUTHINFO_UNAVAIL,
    PAM_USER_UNKNOWN,
    PAM_MAXTRIES,
    PAM_NEW_AUTHTOK_REQD,
    PAM_ACCT_EXPIRED,
    PAM_SESSION_ERR,
    PAM_CRED_UNAVAIL,
    PAM_CRED_EXPIRED,
    PAM_CRED_ERR,
    PAM_NO_MODULE_DATA,
    PAM_CONV_ERR,
    PAM_AUTHTOK_ERR,
    PAM_AUTHTOK_RECOVERY_ERR,
    PAM_AUTHTOK_LOCK_BUSY,
    PAM_AUTHTOK_DISABLE_AGING,
    PAM_TRY_AGAIN,
    PAM_IGNORE,
    PAM_ABORT,
    PAM_AUTHTOK_EXPIRED,
    PAM_MODULE_UNKNOWN,
    PAM_BAD_ITEM,
    PAM_CONV_AGAIN,
    PAM_INCOMPLETE,
}

impl PamResultCode {
    /// The number that the C interface uses for this result code.
    pub open spec fn spec_code(self) -> int {
        match self {
            PamResultCode::PAM_SUCCESS => 0,
            PamResultCode::PAM_OPEN_ERR => 1,
            PamResultCode::PAM_SYMBOL_ERR => 2,
            PamResultCode::PAM_SERVICE_ERR => 3,
            PamResultCode::PAM_SYSTEM_ERR => 4,
            PamResultCode::PAM_BUF_ERR => 5,
            PamResultCode::PAM_PERM_DENIED => 6,
            PamResultCode::PAM_AUTH_ERR => 7,
            PamResultCode::PAM_CRED_INSUFFICIENT => 8,
            PamResultCode::PAM_AUTHINFO_UNAVAIL => 9,
            PamResultCode::PAM_USER_UNKNOWN => 10,
            PamResultCode::PAM_MAXTRIES => 11,
            PamResultCode::PAM_NEW_AUTHTOK_REQD => 12,
            PamResultCode::PAM_ACCT_EXPIRED => 13,
            PamResultCode::PAM_SESSION_ERR => 14,
            PamResultCode::PAM_CRED_UNAVAIL => 15,
            PamResultCode::PAM_CRED_EXPIRED => 16,
            PamResultCode::PAM_CRED_ERR => 17,
            PamResultCode::PAM_NO_MODULE_DATA => 18,
            PamResultCode::PAM_CONV_ERR => 19,
            PamResultCode::PAM_AUTHTOK_ERR => 20,
            PamResultCode::PAM_AUTHTOK_RECOVERY_ERR => 21,
            PamResultCode::PAM_AUTHTOK_LOCK_BUSY => 22,
            PamResultCode::PAM_AUTHTOK_DISABLE_AGING => 23,
            PamResultCode::PAM_TRY_AGAIN => 24,
            PamResultCode::PAM_IGNORE => 25,
            PamResultCode::PAM_ABORT => 26,
            PamResultCode::PAM_AUTHTOK_EXPIRED => 27,
            PamResultCode::PAM_MODULE_UNKNOWN => 28,
            PamResultCode::PAM_BAD_ITEM => 29,
            PamResultCode::PAM_CONV_AGAIN => 30,
            PamResultCode::PAM_INCOMPLETE => 31,
        }
    }

    /// The number that the C interface uses for this result code.
    pub fn code(&self) -> (c: c_int)
        ensures
            c == self.spec_code(),
            c == *self as c_int,
    {
        match self {
            PamResultCode::PAM_SUCCESS => 0,
            PamResultCode::PAM_OPEN_ERR => 1,
            PamResultCode::PAM_SYMBOL_ERR => 2,
            PamResultCode::PAM_SERVICE_ERR => 3,
            PamResultCode::PAM_SYSTEM_ERR => 4,
            PamResultCode::PAM_BUF_ERR => 5,
            PamResultCode::PAM_PERM_DENIED => 6,
            PamResultCode::PAM_AUTH_ERR => 7,
            PamResultCode::PAM_CRED_INSUFFICIENT => 8,
            PamResultCode::PAM_AUTHINFO_UNAVAIL => 9,
            PamResultCode::PAM_USER_UNKNOWN => 10,
            PamResultCode::PAM_MAXTRIES => 11,
            PamResultCode::PAM_NEW_AUTHTOK_REQD => 12,
            PamResultCode::PAM_ACCT_EXPIRED => 13,
            PamResultCode::PAM_SESSION_ERR => 14,
            PamResultCode::PAM_CRED_UNAVAIL => 15,
            PamResultCode::PAM_CRED_EXPIRED => 16,
            PamResultCode::PAM_CRED_ERR => 17,
            PamResultCode::PAM_NO_MODULE_DATA => 18,
            PamResultCode::PAM_CONV_ERR => 19,
            PamResultCode::PAM_AUTHTOK_ERR => 20,
            PamResultCode::PAM_AUTHTOK_RECOVERY_ERR => 21,
            PamResultCode::PAM_AUTHTOK_LOCK_BUSY => 22,
            PamResultCode::PAM_AUTHTOK_DISABLE_AGING => 23,
            PamResultCode::PAM_TRY_AGAIN => 24,
            PamResultCode::PAM_IGNORE => 25,
            PamResultCode::PAM_ABORT => 26,
            PamResultCode::PAM_AUTHTOK_EXPIRED => 27,
            PamResultCode::PAM_MODULE_UNKNOWN => 28,
            PamResultCode::PAM_BAD_ITEM => 29,
            PamResultCode::PAM_CONV_AGAIN => 30,
            PamResultCode::PAM_INCOMPLETE => 31,
        }
    }
}

/// The result code that a raw value names, or the raw value itself where it
/// names none.
pub open spec fn decode_code(value: c_int) -> Result<PamResultCode, c_int> {
    match value {
        0 => Ok(PamResultCode::PAM_SUCCESS),
        1 => Ok(PamResultCode::PAM_OPEN_ERR),
        2 => Ok(PamResultCode::PAM_SYMBOL_ERR),
        3 => Ok(PamResultCode::PAM_SERVICE_ERR),
        4 => Ok(PamResultCode::PAM_SYSTEM_ERR),
        5 => Ok(PamResultCode::PAM_BUF_ERR),
        6 => Ok(PamResultCode::PAM_PERM_DENIED),
        7 => Ok(PamResultCode::PAM_AUTH_ERR),
        8 => Ok(PamResultCode::PAM_CRED_INSUFFICIENT),
        9 => Ok(PamResultCode::PAM_AUTHINFO_UNAVAIL),
        10 => Ok(PamResultCode::PAM_USER_UNKNOWN),
        11 => Ok(PamResultCode::PAM_MAXTRIES),
        12 => Ok(PamResultCode::PAM_NEW_AUTHTOK_REQD),
        13 => Ok(PamResultCode::PAM_ACCT_EXPIRED),
        14 => Ok(PamResultCode::PAM_SESSION_ERR),
        15 => Ok(PamResultCode::PAM_CRED_UNAVAIL),
        16 => Ok(PamResultCode::PAM_CRED_EXPIRED),
        17 => Ok(PamResultCode::PAM_CRED_ERR),
        18 => Ok(PamResultCode::PAM_NO_MODULE_DATA),
        19 => Ok(PamResultCode::PAM_CONV_ERR),
        20 => Ok(PamResultCode::PAM_AUTHTOK_ERR),
        21 => Ok(PamResultCode::PAM_AUTHTOK_RECOVERY_ERR),
        22 => Ok(PamResultCode::PAM_AUTHTOK_LOCK_BUSY),
        23 => Ok(PamResultCode::PAM_AUTHTOK_DISABLE_AGING),
        24 => Ok(PamResultCode::PAM_TRY_AGAIN),
        25 => Ok(PamResultCode::PAM_IGNORE),
        26 => Ok(PamResultCode::PAM_ABORT),
        27 => Ok(PamResultCode::PAM_AUTHTOK_EXPIRED),
        28 => Ok(PamResultCode::PAM_MODULE_UNKNOWN),
        29 => Ok(PamResultCode::PAM_BAD_ITEM),
        30 => Ok(PamResultCode::PAM_CONV_AGAIN),
        31 => Ok(PamResultCode::PAM_INCOMPLETE),
        _ => Err(value),
    }
}

impl TryFrom<c_int> for PamResultCode {
    /// The original value is returned when it does not name a known result code.
    type Error = c_int;

    /// Map a raw [`c_int`] to a [`PamResultCode`].
    fn try_from(value: c_int) -> (r: Result<Self, Self::Error>) {
        match value {
            0 => Ok(PamResultCode::PAM_SUCCESS),
            1 => Ok(PamResultCode::PAM_OPEN_ERR),
            2 => Ok(PamResultCode::PAM_SYMBOL_ERR),
            3 => Ok(PamResultCode::PAM_SERVICE_ERR),
            4 => Ok(PamResultCode::PAM_SYSTEM_ERR),
            5 => Ok(PamResultCode::PAM_BUF_ERR),
            6 => Ok(PamResultCode::PAM_PERM_DENIED),
            7 => Ok(PamResultCode::PAM_AUTH_ERR),
            8 => Ok(PamResultCode::PAM_CRED_INSUFFICIENT),
            9 => Ok(PamResultCode::PAM_AUTHINFO_UNAVAIL),
            10 => Ok(PamResultCode::PAM_USER_UNKNOWN),
            11 => Ok(PamResultCode::PAM_MAXTRIES),
            12 => Ok(PamResultCode::PAM_NEW_AUTHTOK_REQD),
            13 => Ok(PamResultCode::PAM_ACCT_EXPIRED),
            14 => Ok(PamResultCode::PAM_SESSION_ERR),
            15 => Ok(PamResultCode::PAM_CRED_UNAVAIL),
            16 => Ok(PamResultCode::PAM_CRED_EXPIRED),
            17 => Ok(PamResultCode::PAM_CRED_ERR),
            18 => Ok(PamResultCode::PAM_NO_MODULE_DATA),
            19 => Ok(PamResultCode::PAM_CONV_ERR),
            20 => Ok(PamResultCode::PAM_AUTHTOK_ERR),
            21 => Ok(PamResultCode::PAM_AUTHTOK_RECOVERY_ERR),
            22 => Ok(PamResultCode::PAM_AUTHTOK_LOCK_BUSY),
            23 => Ok(PamResultCode::PAM_AUTHTOK_DISABLE_AGING),
            24 => Ok(PamResultCode::PAM_TRY_AGAIN),
            25 => Ok(PamResultCode::PAM_IGNORE),
            26 => Ok(PamResultCode::PAM_ABORT),
            27 => Ok(PamResultCode::PAM_AUTHTOK_EXPIRED),
            28 => Ok(PamResultCode::PAM_MODULE_UNKNOWN),
            29 => Ok(PamResultCode::PAM_BAD_ITEM),
            30 => Ok(PamResultCode::PAM_CONV_AGAIN),
            31 => Ok(PamResultCode::PAM_INCOMPLETE),
            other => Err(other),
        }
    }
}

impl TryFromSpecImpl<c_int> for PamResultCode {
    open spec fn obeys_try_from_spec() -> bool {
        true
    }

    open spec fn try_from_spec(v: c_int) -> Result<Self, Self::Error> {
        decode_code(v)
    }
}

impl PamResultCode {
    /// What [`PamResultCode::from_raw`] makes of a raw value: the code it names,
    /// and `PAM_SYSTEM_ERR` for a value that names none.
    pub open spec fn spec_from_raw(value: c_int) -> PamResultCode {
        match decode_code(value) {
            Ok(code) => code,
            Err(_) => PamResultCode::PAM_SYSTEM_ERR,
        }
    }

    /// Map a [`c_int`] to a [`PamResultCode`].
    /// Unknown values are mapped to [`PamResultCode::PAM_SYSTEM_ERR`].
    pub fn from_raw(value: c_int) -> (r: Self)
        ensures
            r == Self::spec_from_raw(value),
            0 <= value <= 31 ==> r as int == value,
            (value < 0 || value > 31) ==> r == PamResultCode::PAM_SYSTEM_ERR,
    {
        match Self::try_from(value) {
            Ok(code) => code,
            Err(_) => PamResultCode::PAM_SYSTEM_ERR,
        }
    }
}

/// Every result code has a number between 0 and 31, and that number
/// converts back to the same result code.
pub proof fn lemma_code_roundtrip(c: PamResultCode)
    ensures
        0 <= c.spec_code() <= 31,
        decode_code(c.spec_code() as c_int) == Ok::<PamResultCode, c_int>(c),
        PamResultCode::spec_from_raw(c.spec_code() as c_int) == c,
{
}

/// A raw value converts to a result code exactly when it lies between 0 and
/// 31, and then to the code whose number it is; any other value comes back
/// unchanged as the error.
pub proof fn lemma_decode_exact(value: c_int)
    ensures
        decode_code(value) is Ok <==> 0 <= value <= 31,
        decode_code(value) matches Ok(c) ==> c.spec_code() == value,
        decode_code(value) matches Err(e) ==> e == value,
{
}

/// Two result codes with the same number are the same code.
pub proof fn lemma_code_injective(c1: PamResultCode, c2: PamResultCode)
    requires
        c1.spec_code() == c2.spec_code(),
    ensures
        c1 == c2,
{
    lemma_code_roundtrip(c1);
    lemma_code_roundtrip(c2);
}

/// `from_raw` is total: it keeps every value that names a code and sends
/// every other value to `PAM_SYSTEM_ERR`.
pub proof fn lemma_from_raw_fallback(value: c_int)
    ensures
        (value < 0 || value > 31) ==> PamResultCode::spec_from_raw(value)
            == PamResultCode::PAM_SYSTEM_ERR,
        0 <= value <= 31 ==> PamResultCode::spec_from_raw(value).spec_code() == value,
        0 <= value <= 31 ==> PamResultCode::spec_from_raw(value) as int == value,
{
    lemma_decode_exact(value);
}

/// The number of every result code is its place in the declaration of
/// `PamResultCode`, which follows `_pam_types.h`: the number that the enum
/// itself carries as a C-like enum.
pub proof fn lemma_code_is_declared_number(c: PamResultCode)
    ensures
        c.spec_code() == c as int,
{
}

/// A raw value converts to the result code that carries that number in the
/// declaration; the declared numbers are 0 to 31, and exactly those convert.
pub proof fn lemma_decode_by_declared_number(value: c_int)
    ensures
        decode_code(value) matches Ok(c) ==> c as int == value,
        decode_code(value) is Ok <==> 0 <= value <= 31,
{
}

/// The Linux-PAM numbers of the result codes, one by one, as
/// `_pam_types.h` gives them, and the codes that each number decodes to.
pub proof fn lemma_linux_pam_numbers()
    ensures
        PamResultCode::PAM_SUCCESS.spec_code() == 0,
        PamResultCode::PAM_OPEN_ERR.spec_code() == 1,
        PamResultCode::PAM_SYMBOL_ERR.spec_code() == 2,
        PamResultCode::PAM_SERVICE_ERR.spec_code() == 3,
        PamResultCode::PAM_SYSTEM_ERR.spec_code() == 4,
        PamResultCode::PAM_BUF_ERR.spec_code() == 5,
        PamResultCode::PAM_PERM_DENIED.spec_code() == 6,
        PamResultCode::PAM_AUTH_ERR.spec_code() == 7,
        PamResultCode::PAM_CRED_INSUFFICIENT.spec_code() == 8,
        PamResultCode::PAM_AUTHINFO_UNAVAIL.spec_code() == 9,
        PamResultCode::PAM_USER_UNKNOWN.spec_code() == 10,
        PamResultCode::PAM_MAXTRIES.spec_code() == 11,
        PamResultCode::PAM_NEW_AUTHTOK_REQD.spec_code() == 12,
        PamResultCode::PAM_ACCT_EXPIRED.spec_code() == 13,
        PamResultCode::PAM_SESSION_ERR.spec_code() == 14,
        PamResultCode::PAM_CRED_UNAVAIL.spec_code() == 15,
        PamResultCode::PAM_CRED_EXPIRED.spec_code() == 16,
        PamResultCode::PAM_CRED_ERR.spec_code() == 17,
        PamResultCode::PAM_NO_MODULE_DATA.spec_code() == 18,
        PamResultCode::PAM_CONV_ERR.spec_code() == 19,
        PamResultCode::PAM_AUTHTOK_ERR.spec_code() == 20,
        PamResultCode::PAM_AUTHTOK_RECOVERY_ERR.spec_code() == 21,
        PamResultCode::PAM_AUTHTOK_LOCK_BUSY.spec_code() == 22,
        PamResultCode::PAM_AUTHTOK_DISABLE_AGING.spec_code() == 23,
        PamResultCode::PAM_TRY_AGAIN.spec_code() == 24,
        PamResultCode::PAM_IGNORE.spec_code() == 25,
        PamResultCode::PAM_ABORT.spec_code() == 26,
        PamResultCode::PAM_AUTHTOK_EXPIRED.spec_code() == 27,
        PamResultCode::PAM_MODULE_UNKNOWN.spec_code() == 28,
        PamResultCode::PAM_BAD_ITEM.spec_code() == 29,
        PamResultCode::PAM_CONV_AGAIN.spec_code() == 30,
        PamResultCode::PAM_INCOMPLETE.spec_code() == 31,
        decode_code(0) == Ok::<PamResultCode, c_int>(PamResultCode::PAM_SUCCESS),
        decode_code(1) == Ok::<PamResultCode, c_int>(PamResultCode::PAM_OPEN_ERR),
        decode_code(2) == Ok::<PamResultCode, c_int>(PamResultCode::PAM_SYMBOL_ERR),
        decode_code(3) == Ok::<PamResultCode, c_int>(PamResultCode::PAM_SERVICE_ERR),
        decode_code(4) == Ok::<PamResultCode, c_int>(PamResultCode::PAM_SYSTEM_ERR),
        decode_code(5) == Ok::<PamResultCode, c_int>(PamResultCode::PAM_BUF_ERR),
        decode_code(6) == Ok::<PamResultCode, c_int>(PamResultCode::PAM_PERM_DENIED),
        decode_code(7) == Ok::<PamResultCode, c_int>(PamResultCode::PAM_AUTH_ERR),
        decode_code(8) == Ok::<PamResultCode, c_int>(PamResultCode::PAM_CRED_INSUFFICIENT),
        decode_code(9) == Ok::<PamResultCode, c_int>(PamResultCode::PAM_AUTHINFO_UNAVAIL),
        decode_code(10) == Ok::<PamResultCode, c_int>(PamResultCode::PAM_USER_UNKNOWN),
        decode_code(11) == Ok::<PamResultCode, c_int>(PamResultCode::PAM_MAXTRIES),
        decode_code(12) == Ok::<PamResultCode, c_int>(PamResultCode::PAM_NEW_AUTHTOK_REQD),
        decode_code(13) == Ok::<PamResultCode, c_int>(PamResultCode::PAM_ACCT_EXPIRED),
        decode_code(14) == Ok::<PamResultCode, c_int>(PamResultCode::PAM_SESSION_ERR),
        decode_code(15) == Ok::<PamResultCode, c_int>(PamResultCode::PAM_CRED_UNAVAIL),
        decode_code(16) == Ok::<PamResultCode, c_int>(PamResultCode::PAM_CRED_EXPIRED),
        decode_code(17) == Ok::<PamResultCode, c_int>(PamResultCode::PAM_CRED_ERR),
        decode_code(18) == Ok::<PamResultCode, c_int>(PamResultCode::PAM_NO_MODULE_DATA),
        decode_code(19) == Ok::<PamResultCode, c_int>(PamResultCode::PAM_CONV_ERR),
        decode_code(20) == Ok::<PamResultCode, c_int>(PamResultCode::PAM_AUTHTOK_ERR),
        decode_code(21) == Ok::<PamResultCode, c_int>(PamResultCode::PAM_AUTHTOK_RECOVERY_ERR),
        decode_code(22) == Ok::<PamResultCode, c_int>(PamResultCode::PAM_AUTHTOK_LOCK_BUSY),
        decode_code(23) == Ok::<PamResultCode, c_int>(PamResultCode::PAM_AUTHTOK_DISABLE_AGING),
        decode_code(24) == Ok::<PamResultCode, c_int>(PamResultCode::PAM_TRY_AGAIN),
        decode_code(25) == Ok::<PamResultCode, c_int>(PamResultCode::PAM_IGNORE),
        decode_code(26) == Ok::<PamResultCode, c_int>(PamResultCode::PAM_ABORT),
        decode_code(27) == Ok::<PamResultCode, c_int>(PamResultCode::PAM_AUTHTOK_EXPIRED),
        decode_code(28) == Ok::<PamResultCode, c_int>(PamResultCode::PAM_MODULE_UNKNOWN),
        decode_code(29) == Ok::<PamResultCode, c_int>(PamResultCode::PAM_BAD_ITEM),
        decode_code(30) == Ok::<PamResultCode, c_int>(PamResultCode::PAM_CONV_AGAIN),
        decode_code(31) == Ok::<PamResultCode, c_int>(PamResultCode::PAM_INCOMPLETE),
{
}

} // verus!
