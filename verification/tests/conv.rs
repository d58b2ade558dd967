use pam::constants::{
    PamResultCode, PAM_ERROR_MSG, PAM_PROMPT_ECHO_OFF, PAM_PROMPT_ECHO_ON, PAM_RADIO_TYPE,
    PAM_TEXT_INFO,
};
use pam::conv::{send_prepare, send_status};

/// The binary prompt style, which `send` has no interface for.
const BINARY_PROMPT: i32 = 7;

#[test]
fn send_error_cases() {
    // (style, whether a conversation function is registered, message, expected error)
    let test_cases: Vec<(i32, bool, &str, PamResultCode)> = vec![
        // Error on binary prompt
        (BINARY_PROMPT, true, "", PamResultCode::PAM_CONV_ERR),
        // Error on unknown style
        (libc::c_int::MIN, true, "", PamResultCode::PAM_CONV_ERR),
        // Error if no conversation function is provided
        (PAM_PROMPT_ECHO_OFF, false, "", PamResultCode::PAM_CONV_ERR),
        // Error if message contains internal 0 byte
        (
            PAM_PROMPT_ECHO_OFF,
            true,
            "PAM is fun\0sometimes",
            PamResultCode::PAM_BUF_ERR,
        ),
    ];

    for (style, has_conv, message, expected) in test_cases {
        let actual = send_prepare(style, has_conv, message);
        assert_eq!(expected, actual.unwrap_err());
    }
}

#[test]
fn send_accepts_every_string_style() {
    for style in [
        PAM_PROMPT_ECHO_OFF,
        PAM_PROMPT_ECHO_ON,
        PAM_ERROR_MSG,
        PAM_TEXT_INFO,
        PAM_RADIO_TYPE,
    ] {
        assert_eq!(send_prepare(style, true, "Password: "), Ok(()));
    }
}

#[test]
fn send_rejects_styles_around_the_string_styles() {
    for style in [0, 6, 8, -1, i32::MAX] {
        assert_eq!(
            send_prepare(style, true, "hello"),
            Err(PamResultCode::PAM_CONV_ERR)
        );
    }
}

#[test]
fn send_checks_style_before_conversation_and_message() {
    // An unknown style wins over a missing conversation and a NUL in the message.
    assert_eq!(
        send_prepare(BINARY_PROMPT, false, "a\0b"),
        Err(PamResultCode::PAM_CONV_ERR)
    );
    // A missing conversation wins over a NUL in the message.
    assert_eq!(
        send_prepare(PAM_TEXT_INFO, false, "a\0b"),
        Err(PamResultCode::PAM_CONV_ERR)
    );
}

#[test]
fn send_accepts_non_ascii_messages() {
    assert_eq!(send_prepare(PAM_TEXT_INFO, true, "Grüße, 世界"), Ok(()));
    assert_eq!(
        send_prepare(PAM_TEXT_INFO, true, "Grüße\0"),
        Err(PamResultCode::PAM_BUF_ERR)
    );
}

#[test]
fn send_status_cases() {
    assert_eq!(send_status(0, false), Ok(()));
    assert_eq!(send_status(0, true), Err(PamResultCode::PAM_CONV_ERR));
    assert_eq!(send_status(19, false), Err(PamResultCode::PAM_CONV_ERR));
    assert_eq!(send_status(30, true), Err(PamResultCode::PAM_CONV_AGAIN));
    assert_eq!(send_status(-7, false), Err(PamResultCode::PAM_SYSTEM_ERR));
    assert_eq!(send_status(1000, false), Err(PamResultCode::PAM_SYSTEM_ERR));
}
