use laermampel::lang::{apply, is_english, language_number_is_german, locale_is_german, t, Language};

#[test]
fn the_system_decides_with_auto() {
    assert_eq!(apply(Language::Auto, true), 0);
    assert_eq!(apply(Language::Auto, false), 1);
    assert_eq!(apply(Language::German, false), 0);
    assert_eq!(apply(Language::English, true), 1);
}

#[test]
fn texts_follow_the_language() {
    assert_eq!(t(apply(Language::English, true), "Anzeige", "Display"), "Display");
    assert_eq!(t(apply(Language::German, false), "Anzeige", "Display"), "Anzeige");
    assert!(is_english(1));
    assert!(!is_english(0));
    // Everything but the English code is German.
    assert!(!is_english(7));
}

#[test]
fn labels_are_the_same_in_both_languages() {
    let labels: Vec<&str> = Language::all().iter().map(|l| l.label()).collect();
    assert_eq!(labels, ["Automatisch · Automatic", "Deutsch", "English"]);
}

#[test]
fn german_in_all_its_countries() {
    // Germany, Switzerland, Austria; then English and French.
    for number in [0x0407u16, 0x0807, 0x0c07] {
        assert!(language_number_is_german(number));
    }
    for number in [0x0409u16, 0x040c] {
        assert!(!language_number_is_german(number));
    }
}

#[test]
fn lang_goes_before_lc_all() {
    let de = || Some("de_DE.UTF-8".to_string());
    let en = || Some("en_US.UTF-8".to_string());
    assert!(locale_is_german(de(), en()));
    assert!(!locale_is_german(en(), de()));
    assert!(locale_is_german(None, de()));
    assert!(!locale_is_german(None, None));
    assert!(!locale_is_german(Some("d".to_string()), None));
}
