use pwpush::args::PPCText;
use pwpush::pwpush_api::build_body_string;

// not super useful in practice, but what does the build_body_string
// function care?
#[test]
fn build_body_string_empty_pw() {
    let text = PPCText {
        password_payload: String::from(""),
        passphrase: None,
        note: None,
        expire_after_days: None,
        expire_after_views: None,
        deletable_by_viewer: None,
        retrieval_step: None,
    };

    let actual = build_body_string(&text);
    let expected = String::from("password[payload]=");

    assert_eq!(actual, expected);
}

#[test]
fn build_body_string_simple_pw() {
    let text = PPCText {
        password_payload: String::from("password"),
        passphrase: None,
        note: None,
        expire_after_days: None,
        expire_after_views: None,
        deletable_by_viewer: None,
        retrieval_step: None,
    };

    let actual = build_body_string(&text);
    let expected = String::from("password[payload]=password");

    assert_eq!(actual, expected);
}

// Some characters (including `_`) are not encoded, so they are also not
// expected to be encoded here. The point is that the encoding is applied in
// the right places.
#[test]
fn build_body_string_pw_urlencoded() {
    let text = PPCText {
        password_payload: String::from("random_§$%&%$_characters with spaces"),
        passphrase: None,
        note: None,
        expire_after_days: None,
        expire_after_views: None,
        deletable_by_viewer: None,
        retrieval_step: None,
    };

    let actual = build_body_string(&text);
    let expected = String::from(
        "password[payload]=random_%C2%A7%24%25%26%25%24_characters%20with%20spaces",
    );

    assert_eq!(actual, expected);
}

#[test]
fn build_body_string_pw_with_passphrase() {
    let text = PPCText {
        password_payload: String::from("password"),
        passphrase: Some(String::from("passphrase")),
        note: None,
        expire_after_days: None,
        expire_after_views: None,
        deletable_by_viewer: None,
        retrieval_step: None,
    };

    let actual = build_body_string(&text);
    let expected = String::from("password[payload]=password&password[passphrase]=passphrase");

    assert_eq!(actual, expected);
}

#[test]
fn build_body_string_with_multiple_options() {
    let text = PPCText {
        password_payload: String::from("password"),
        passphrase: Some(String::from("passphrase")),
        note: Some(String::from("this is a note")),
        expire_after_days: Some(5),
        expire_after_views: Some(2),
        deletable_by_viewer: None,
        retrieval_step: None,
    };

    let actual = build_body_string(&text);
    let expected = String::from("password[payload]=password&password[passphrase]=passphrase&\
                                         password[note]=this%20is%20a%20note&password[expire_after_days]=5&\
                                         password[expire_after_views]=2");

    assert_eq!(actual, expected);
}

#[test]
fn build_body_string_with_all_options() {
    let text = PPCText {
        password_payload: String::from("password"),
        passphrase: Some(String::from("passphrase")),
        note: Some(String::from("this is a note")),
        expire_after_days: Some(5),
        expire_after_views: Some(2),
        deletable_by_viewer: Some(true),
        retrieval_step: Some(false),
    };

    let actual = build_body_string(&text);
    let expected = String::from("password[payload]=password&password[passphrase]=passphrase&\
                                         password[note]=this%20is%20a%20note&password[expire_after_days]=5&\
                                         password[expire_after_views]=2&password[deletable_by_viewer]=true&\
                                         password[retrieval_step]=false");

    assert_eq!(actual, expected);
}
