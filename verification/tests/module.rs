use pam::constants::PamResultCode;
use pam::module::{check_c_string, check_prompt, item_status, lookup_status, status, user_name};

#[test]
fn test_username_example_module() {
    // The path that the `username` example module takes in `open_session`
    // when the PAM stack knows the user "testuser": no prompt, a successful
    // `pam_get_user` with a non-null name, then the name printed to stderr.
    let test_username = "testuser";
    assert_eq!(check_prompt(None), Ok(()));
    assert_eq!(lookup_status(0, false), Ok(()));
    let name = user_name(test_username.as_bytes().to_vec()).unwrap();
    let expected_stderr = format!("username: {test_username}\n");
    assert_eq!(expected_stderr, format!("username: {name}\n"));
    // The module answers PAM_SUCCESS, which the PAM stack reads as 0.
    assert_eq!(PamResultCode::PAM_SUCCESS.code(), 0);
}

#[test]
fn c_string_check() {
    assert_eq!(check_c_string(""), Ok(()));
    assert_eq!(check_c_string("key"), Ok(()));
    assert_eq!(check_c_string("\0"), Err(PamResultCode::PAM_BUF_ERR));
    assert_eq!(check_c_string("ke\0y"), Err(PamResultCode::PAM_BUF_ERR));
    assert_eq!(check_c_string("key\0"), Err(PamResultCode::PAM_BUF_ERR));
}

#[test]
fn prompt_check() {
    assert_eq!(check_prompt(Some("login: ")), Ok(()));
    assert_eq!(
        check_prompt(Some("login:\0 ")),
        Err(PamResultCode::PAM_BUF_ERR)
    );
}

#[test]
fn status_cases() {
    assert_eq!(status(0), Ok(()));
    assert_eq!(status(7), Err(PamResultCode::PAM_AUTH_ERR));
    assert_eq!(status(29), Err(PamResultCode::PAM_BAD_ITEM));
    assert_eq!(status(32), Err(PamResultCode::PAM_SYSTEM_ERR));
    assert_eq!(status(-1), Err(PamResultCode::PAM_SYSTEM_ERR));
}

#[test]
fn lookup_status_cases() {
    assert_eq!(lookup_status(0, false), Ok(()));
    assert_eq!(lookup_status(0, true), Err(PamResultCode::PAM_SYSTEM_ERR));
    assert_eq!(lookup_status(18, false), Err(PamResultCode::PAM_NO_MODULE_DATA));
    assert_eq!(lookup_status(10, true), Err(PamResultCode::PAM_USER_UNKNOWN));
}

#[test]
fn item_status_cases() {
    assert_eq!(item_status(0, false), Ok(true));
    assert_eq!(item_status(0, true), Ok(false));
    assert_eq!(item_status(29, false), Err(PamResultCode::PAM_BAD_ITEM));
    assert_eq!(item_status(99, true), Err(PamResultCode::PAM_SYSTEM_ERR));
}

#[test]
fn user_names() {
    assert_eq!(user_name(b"alice".to_vec()), Ok(String::from("alice")));
    assert_eq!(user_name(Vec::new()), Ok(String::new()));
    assert_eq!(
        user_name("jürgen".as_bytes().to_vec()),
        Ok(String::from("jürgen"))
    );
    assert_eq!(
        user_name(vec![0x61, 0xff, 0x62]),
        Err(PamResultCode::PAM_SYSTEM_ERR)
    );
    // A lone continuation byte and a surrogate are not UTF-8.
    assert_eq!(user_name(vec![0x80]), Err(PamResultCode::PAM_SYSTEM_ERR));
    assert_eq!(
        user_name(vec![0xed, 0xa0, 0x80]),
        Err(PamResultCode::PAM_SYSTEM_ERR)
    );
}
