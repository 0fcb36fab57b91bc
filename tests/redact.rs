use echo_macro::redact::mask_text;

#[test]
fn mask_empty_is_placeholder() {
    assert_eq!(mask_text(""), "(empty)");
}

#[test]
fn mask_short_text() {
    assert_eq!(mask_text("Hello"), "H... (5 chars)");
}

#[test]
fn mask_long_text() {
    assert_eq!(mask_text("HelloWorldAgain"), "H***************n (15 chars)");
}

#[test]
fn mask_single_char() {
    assert_eq!(mask_text("x"), "x... (1 chars)");
}

#[test]
fn mask_ten_chars_is_short() {
    assert_eq!(mask_text("abcdefghij"), "a... (10 chars)");
}

#[test]
fn mask_eleven_chars_is_long() {
    assert_eq!(mask_text("abcdefghijk"), "a***************k (11 chars)");
}

#[test]
fn mask_counts_characters_not_bytes() {
    assert_eq!(mask_text("héllo"), "h... (5 chars)");
    assert_eq!(mask_text("ünïcödé-text!"), "ü***************! (13 chars)");
}

#[test]
fn mask_three_digit_count() {
    let text = "a".repeat(119) + "z";
    assert_eq!(mask_text(&text), "a***************z (120 chars)");
}

#[test]
fn mask_is_deterministic_and_hides_content() {
    let text = "correct horse battery staple, secret";
    let first = mask_text(text);
    assert_eq!(first, mask_text(text));
    assert!(!first.contains(text));
    assert!(!first.contains("horse"));
}

#[test]
fn mask_same_ends_same_length_look_alike() {
    assert_eq!(mask_text("password-one-x"), mask_text("pXXXXXXXXXXXXx"));
    assert_eq!(mask_text("Hello"), mask_text("Hxxxx"));
}
