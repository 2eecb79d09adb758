use cosmic_totp_client::icon::TotpIcon;

fn initials(name: &str) -> String {
    match TotpIcon::default_for_name(name) {
        TotpIcon::Initials { initials } => initials,
        TotpIcon::Image { .. } => panic!("initials expected"),
    }
}

#[test]
fn initials_of_two_words_are_their_first_characters() {
    assert_eq!(initials("Git Hub"), "GH");
    assert_eq!(initials("alpha beta gamma"), "ab");
    assert_eq!(initials("  x\t\ty  "), "xy");
}

#[test]
fn initials_of_one_word_are_its_first_two_characters() {
    assert_eq!(initials("GitHub"), "Gi");
    assert_eq!(initials("   GitHub   "), "Gi");
    assert_eq!(initials("ab"), "ab");
}

#[test]
fn initials_of_one_character() {
    assert_eq!(initials("x"), "x");
    assert_eq!(initials("  x "), "x");
}

#[test]
fn initials_of_nothing_are_the_placeholder() {
    assert_eq!(initials(""), "-");
    assert_eq!(initials("   "), "-");
    assert_eq!(initials("\n\t"), "-");
}

#[test]
fn initials_count_characters_not_bytes() {
    assert_eq!(initials("éa"), "éa");
    assert_eq!(initials("日本 語"), "日語");
    assert_eq!(initials("é\u{2003}ü"), "éü");
}

#[test]
fn initials_have_one_or_two_characters() {
    for name in ["", " ", "a", "ab", "abc", "a b", "a b c", "  long name here  "] {
        let n = initials(name).chars().count();
        assert!(1 <= n && n <= 2);
    }
}

#[test]
fn icon_kind_is_reported() {
    assert!(TotpIcon::default_for_name("x").is_initials());
    assert!(!TotpIcon::Image { path: "/tmp/icon.png".to_string() }.is_initials());
}
