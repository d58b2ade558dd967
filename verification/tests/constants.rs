use pam::constants::PamResultCode;

#[test]
fn result_codes_round_trip() {
    for value in 0..=31 {
        let code = PamResultCode::try_from(value).unwrap();
        assert_eq!(code.code(), value);
        assert_eq!(PamResultCode::from_raw(value), code);
        assert_eq!(PamResultCode::try_from(code.code()), Ok(code));
    }
}

#[test]
fn result_code_numbers() {
    assert_eq!(PamResultCode::PAM_SUCCESS.code(), 0);
    assert_eq!(PamResultCode::PAM_SYSTEM_ERR.code(), 4);
    assert_eq!(PamResultCode::PAM_BUF_ERR.code(), 5);
    assert_eq!(PamResultCode::PAM_AUTH_ERR.code(), 7);
    assert_eq!(PamResultCode::PAM_CONV_ERR.code(), 19);
    assert_eq!(PamResultCode::PAM_IGNORE.code(), 25);
    assert_eq!(PamResultCode::PAM_INCOMPLETE.code(), 31);
    assert_eq!(
        PamResultCode::try_from(12),
        Ok(PamResultCode::PAM_NEW_AUTHTOK_REQD)
    );
}

#[test]
fn unknown_values_are_handed_back() {
    for value in [32, -1, 100, i32::MIN, i32::MAX] {
        assert_eq!(PamResultCode::try_from(value), Err(value));
    }
}

#[test]
fn from_raw_falls_back_to_system_error() {
    for value in [32, -1, 100, i32::MIN, i32::MAX] {
        assert_eq!(
            PamResultCode::from_raw(value),
            PamResultCode::PAM_SYSTEM_ERR
        );
    }
    assert_eq!(PamResultCode::from_raw(25), PamResultCode::PAM_IGNORE);
}

#[test]
fn flag_and_style_values() {
    assert_eq!(pam::constants::PAM_SILENT, 0x8000);
    assert_eq!(pam::constants::PAM_DISALLOW_NULL_AUTHTOK, 1);
    assert_eq!(pam::constants::PAM_CHANGE_EXPIRED_AUTHTOK, 0x20);
    assert_eq!(pam::constants::PAM_PROMPT_ECHO_OFF, 1);
    assert_eq!(pam::constants::PAM_RADIO_TYPE, 5);
}
