use pwpush::args::PPCText;
use pwpush::body::{render_flag, Field, FIELD_COUNT};
use pwpush::decimal::render_decimal;
use pwpush::pwpush_api::build_body_string;

fn only_payload(payload: &str) -> PPCText {
    PPCText {
        password_payload: String::from(payload),
        passphrase: None,
        note: None,
        expire_after_days: None,
        expire_after_views: None,
        deletable_by_viewer: None,
        retrieval_step: None,
    }
}

fn body_for_payload(payload: &str) -> String {
    build_body_string(&only_payload(payload))
}

#[test]
fn unset_options_leave_no_fragment() {
    let body = body_for_payload("secret");
    assert_eq!(body, "password[payload]=secret");
    assert!(!body.contains("password[passphrase]"));
    assert!(!body.contains("password[note]"));
    assert!(!body.contains("password[expire_after_days]"));
    assert!(!body.contains("password[expire_after_views]"));
    assert!(!body.contains("password[deletable_by_viewer]"));
    assert!(!body.contains("password[retrieval_step]"));
    assert!(!body.contains('&'));
}

#[test]
fn each_option_alone_follows_the_payload() {
    let mut text = only_payload("p");
    text.passphrase = Some(String::from("pp"));
    assert_eq!(build_body_string(&text), "password[payload]=p&password[passphrase]=pp");

    let mut text = only_payload("p");
    text.note = Some(String::from("n"));
    assert_eq!(build_body_string(&text), "password[payload]=p&password[note]=n");

    let mut text = only_payload("p");
    text.expire_after_days = Some(7);
    assert_eq!(build_body_string(&text), "password[payload]=p&password[expire_after_days]=7");

    let mut text = only_payload("p");
    text.expire_after_views = Some(3);
    assert_eq!(build_body_string(&text), "password[payload]=p&password[expire_after_views]=3");

    let mut text = only_payload("p");
    text.deletable_by_viewer = Some(false);
    assert_eq!(
        build_body_string(&text),
        "password[payload]=p&password[deletable_by_viewer]=false"
    );

    let mut text = only_payload("p");
    text.retrieval_step = Some(true);
    assert_eq!(build_body_string(&text), "password[payload]=p&password[retrieval_step]=true");
}

#[test]
fn set_but_empty_or_zero_is_still_sent() {
    let mut text = only_payload("");
    text.passphrase = Some(String::new());
    text.note = Some(String::new());
    text.expire_after_days = Some(0);
    text.expire_after_views = Some(0);
    text.deletable_by_viewer = Some(false);
    text.retrieval_step = Some(false);
    assert_eq!(
        build_body_string(&text),
        "password[payload]=&password[passphrase]=&password[note]=&\
         password[expire_after_days]=0&password[expire_after_views]=0&\
         password[deletable_by_viewer]=false&password[retrieval_step]=false"
    );
}

#[test]
fn payload_fragment_is_first_whatever_is_set() {
    let mut text = only_payload("first");
    text.retrieval_step = Some(true);
    text.note = Some(String::from("later"));
    let body = build_body_string(&text);
    assert!(body.starts_with("password[payload]=first"));
    assert_eq!(body.matches("password[payload]=").count(), 1);
}

#[test]
fn fragments_keep_the_fixed_order_for_every_subset() {
    let keys = [
        "passphrase",
        "note",
        "expire_after_days",
        "expire_after_views",
        "deletable_by_viewer",
        "retrieval_step",
    ];
    let mut chosen: u32 = 0;
    while chosen < 64 {
        let picked = |bit: u32| chosen & (1 << bit) != 0;
        let text = PPCText {
            password_payload: String::from("x"),
            passphrase: if picked(0) { Some(String::from("a")) } else { None },
            note: if picked(1) { Some(String::from("b")) } else { None },
            expire_after_days: if picked(2) { Some(1) } else { None },
            expire_after_views: if picked(3) { Some(2) } else { None },
            deletable_by_viewer: if picked(4) { Some(true) } else { None },
            retrieval_step: if picked(5) { Some(false) } else { None },
        };
        let values = ["a", "b", "1", "2", "true", "false"];
        let mut expected = String::from("password[payload]=x");
        let mut bit: u32 = 0;
        while bit < 6 {
            if picked(bit) {
                expected.push_str("&password[");
                expected.push_str(keys[bit as usize]);
                expected.push_str("]=");
                expected.push_str(values[bit as usize]);
            }
            bit += 1;
        }
        assert_eq!(build_body_string(&text), expected);
        chosen += 1;
    }
}

#[test]
fn unreserved_characters_are_kept() {
    let kept = "ABCDEFGHIJKLMNOPQRSTUVWXYZabcdefghijklmnopqrstuvwxyz0123456789-._~";
    assert_eq!(body_for_payload(kept), format!("password[payload]={}", kept));
    assert_eq!(body_for_payload("snake_case_name"), "password[payload]=snake_case_name");
}

#[test]
fn space_becomes_percent_20() {
    assert_eq!(body_for_payload(" "), "password[payload]=%20");
    assert_eq!(body_for_payload("a b  c"), "password[payload]=a%20b%20%20c");
}

#[test]
fn ascii_punctuation_is_escaped_in_upper_case_hex() {
    assert_eq!(body_for_payload("/"), "password[payload]=%2F");
    assert_eq!(body_for_payload("="), "password[payload]=%3D");
    assert_eq!(body_for_payload("&"), "password[payload]=%26");
    assert_eq!(body_for_payload("["), "password[payload]=%5B");
    assert_eq!(body_for_payload("]"), "password[payload]=%5D");
    assert_eq!(body_for_payload("+"), "password[payload]=%2B");
    assert_eq!(body_for_payload("%"), "password[payload]=%25");
    assert_eq!(body_for_payload("?"), "password[payload]=%3F");
    assert_eq!(body_for_payload("@"), "password[payload]=%40");
    assert_eq!(body_for_payload("`"), "password[payload]=%60");
    assert_eq!(body_for_payload("{"), "password[payload]=%7B");
    assert_eq!(body_for_payload("\n"), "password[payload]=%0A");
    assert_eq!(body_for_payload("\0"), "password[payload]=%00");
    assert_eq!(body_for_payload("\u{7f}"), "password[payload]=%7F");
}

#[test]
fn characters_outside_ascii_are_escaped_byte_by_byte() {
    assert_eq!(body_for_payload("§"), "password[payload]=%C2%A7");
    assert_eq!(body_for_payload("é"), "password[payload]=%C3%A9");
    assert_eq!(body_for_payload("€"), "password[payload]=%E2%82%AC");
    assert_eq!(body_for_payload("ยง"), "password[payload]=%E0%B8%A2%E0%B8%87");
    assert_eq!(body_for_payload("👾"), "password[payload]=%F0%9F%91%BE");
    assert_eq!(body_for_payload("\u{10ffff}"), "password[payload]=%F4%8F%BF%BF");
}

#[test]
fn literal_text_of_a_fragment_is_never_encoded() {
    let mut text = only_payload("a&b=c[d]");
    text.passphrase = Some(String::from("password[note]=x"));
    let body = build_body_string(&text);
    assert_eq!(
        body,
        "password[payload]=a%26b%3Dc%5Bd%5D&password[passphrase]=password%5Bnote%5D%3Dx"
    );
    assert_eq!(body.matches('&').count(), 1);
    assert_eq!(body.matches('[').count(), 2);
    assert_eq!(body.matches(']').count(), 2);
    assert_eq!(body.matches('=').count(), 2);
    assert!(!body.contains("password[note]"));
}

#[test]
fn passphrase_and_note_are_encoded_too() {
    let mut text = only_payload("p");
    text.passphrase = Some(String::from("open sesame!"));
    text.note = Some(String::from("für dich"));
    assert_eq!(
        build_body_string(&text),
        "password[payload]=p&password[passphrase]=open%20sesame%21&\
         password[note]=f%C3%BCr%20dich"
    );
}

#[test]
fn numbers_are_written_in_base_ten() {
    assert_eq!(render_decimal(0), "0");
    assert_eq!(render_decimal(5), "5");
    assert_eq!(render_decimal(9), "9");
    assert_eq!(render_decimal(10), "10");
    assert_eq!(render_decimal(99), "99");
    assert_eq!(render_decimal(100), "100");
    assert_eq!(render_decimal(1234567890), "1234567890");
    assert_eq!(render_decimal(usize::MAX), format!("{}", usize::MAX));

    let mut text = only_payload("p");
    text.expire_after_days = Some(usize::MAX);
    text.expire_after_views = Some(1000);
    assert_eq!(
        build_body_string(&text),
        format!(
            "password[payload]=p&password[expire_after_days]={}&password[expire_after_views]=1000",
            usize::MAX
        )
    );
}

#[test]
fn flags_are_written_as_words() {
    assert_eq!(render_flag(true), "true");
    assert_eq!(render_flag(false), "false");
}

#[test]
fn fields_come_in_the_fixed_order_with_their_keys() {
    assert_eq!(FIELD_COUNT, 7);
    let expected = [
        (Field::Payload, "payload"),
        (Field::Passphrase, "passphrase"),
        (Field::Note, "note"),
        (Field::ExpireAfterDays, "expire_after_days"),
        (Field::ExpireAfterViews, "expire_after_views"),
        (Field::DeletableByViewer, "deletable_by_viewer"),
        (Field::RetrievalStep, "retrieval_step"),
    ];
    let mut position: usize = 0;
    while position < FIELD_COUNT {
        let field = Field::nth(position);
        assert_eq!(field, Some(expected[position].0));
        assert_eq!(expected[position].0.name(), expected[position].1);
        position += 1;
    }
    assert_eq!(Field::nth(FIELD_COUNT), None);
    assert_eq!(Field::nth(usize::MAX), None);
}

#[test]
fn rendered_gives_the_value_before_encoding() {
    let text = PPCText {
        password_payload: String::from("a b"),
        passphrase: Some(String::from("c&d")),
        note: None,
        expire_after_days: Some(12),
        expire_after_views: None,
        deletable_by_viewer: Some(true),
        retrieval_step: None,
    };
    assert_eq!(text.rendered(Field::Payload), Some(String::from("a b")));
    assert_eq!(text.rendered(Field::Passphrase), Some(String::from("c&d")));
    assert_eq!(text.rendered(Field::Note), None);
    assert_eq!(text.rendered(Field::ExpireAfterDays), Some(String::from("12")));
    assert_eq!(text.rendered(Field::ExpireAfterViews), None);
    assert_eq!(text.rendered(Field::DeletableByViewer), Some(String::from("true")));
    assert_eq!(text.rendered(Field::RetrievalStep), None);
}

fn is_kept(c: char) -> bool {
    c.is_ascii_alphanumeric() || c == '-' || c == '.' || c == '_' || c == '~'
}

fn expected_encoding(c: char) -> String {
    if is_kept(c) {
        return c.to_string();
    }
    let mut buffer = [0u8; 4];
    let mut expected = String::new();
    for byte in c.encode_utf8(&mut buffer).bytes() {
        expected.push_str(&format!("%{:02X}", byte));
    }
    expected
}

#[test]
fn every_ascii_character_is_kept_or_escaped() {
    let mut code: u32 = 0;
    while code < 0x80 {
        let c = char::from_u32(code).unwrap();
        let body = body_for_payload(&c.to_string());
        assert_eq!(body, format!("password[payload]={}", expected_encoding(c)));
        if is_kept(c) {
            assert_eq!(body.len(), "password[payload]=".len() + 1);
        } else {
            assert_eq!(body.len(), "password[payload]=".len() + 3);
        }
        code += 1;
    }
}

#[test]
fn characters_of_every_width_are_escaped_byte_by_byte() {
    let mut code: u32 = 0x80;
    while code <= 0x10ffff {
        if let Some(c) = char::from_u32(code) {
            let body = body_for_payload(&c.to_string());
            assert_eq!(body, format!("password[payload]={}", expected_encoding(c)));
            assert_eq!(body.len(), "password[payload]=".len() + 3 * c.len_utf8());
        }
        code += 251;
    }
    for c in ['\u{80}', '\u{7ff}', '\u{800}', '\u{d7ff}', '\u{e000}', '\u{ffff}', '\u{10000}'] {
        let body = body_for_payload(&c.to_string());
        assert_eq!(body, format!("password[payload]={}", expected_encoding(c)));
    }
}

#[test]
fn encoding_goes_character_by_character() {
    let value = "a b/§_€.👾~%";
    let mut expected = String::from("password[payload]=");
    for c in value.chars() {
        expected.push_str(&expected_encoding(c));
    }
    assert_eq!(body_for_payload(value), expected);
    assert_eq!(
        body_for_payload(value),
        "password[payload]=a%20b%2F%C2%A7_%E2%82%AC.%F0%9F%91%BE~%25"
    );
}
