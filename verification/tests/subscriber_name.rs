use zero2prod::domain::characters::{char_is_control, char_is_whitespace};
use zero2prod::domain::subscriber_name::{
    char_is_forbidden, text_has_forbidden_character, text_is_blank, MAX_NAME_GRAPHEMES,
};
use zero2prod::domain::{SubscriberName, ValidationError};

fn defect(text: &str) -> Option<ValidationError> {
    SubscriberName::parse(text.to_string()).err()
}

#[test]
fn a_valid_name_is_parsed_successfully() {
    let name = SubscriberName::parse("Ursula Le Guin".to_string()).unwrap();
    assert_eq!(name.as_ref(), "Ursula Le Guin");
}

#[test]
fn a_256_grapheme_long_name_is_valid() {
    let text = "ё".repeat(256);
    let name = SubscriberName::parse(text.clone()).unwrap();
    assert_eq!(name.as_ref(), text);
}

#[test]
fn a_name_longer_than_256_graphemes_is_rejected() {
    assert_eq!(defect(&"a".repeat(257)), Some(ValidationError::NameTooLong));
    assert_eq!(defect(&"ё".repeat(257)), Some(ValidationError::NameTooLong));
    assert_eq!(defect(&"a".repeat(5000)), Some(ValidationError::NameTooLong));
}

#[test]
fn length_is_counted_in_grapheme_clusters_not_in_characters() {
    // Each cluster is a letter and a combining accent: 512 characters.
    let text = "e\u{301}".repeat(256);
    assert_eq!(text.chars().count(), 512);
    assert_eq!(defect(&text), None);
    let text = "e\u{301}".repeat(257);
    assert_eq!(defect(&text), Some(ValidationError::NameTooLong));
    // A flag is one cluster of two characters and eight bytes.
    let flags = "🇷🇺".repeat(256);
    assert_eq!(flags.len(), 2048);
    assert_eq!(defect(&flags), None);
}

#[test]
fn whitespace_only_names_are_rejected() {
    assert_eq!(defect(" "), Some(ValidationError::EmptyName));
    assert_eq!(defect("   \t\r\n"), Some(ValidationError::EmptyName));
    assert_eq!(defect("\u{a0}\u{2003}\u{3000}\u{2028}"), Some(ValidationError::EmptyName));
    assert_eq!(defect(&" ".repeat(300)), Some(ValidationError::EmptyName));
}

#[test]
fn empty_string_is_rejected() {
    assert_eq!(defect(""), Some(ValidationError::EmptyName));
}

#[test]
fn names_containing_an_invalid_character_are_rejected() {
    for c in ['/', '(', ')', '"', '<', '>', '\\', '{', '}'] {
        assert_eq!(defect(&c.to_string()), Some(ValidationError::ForbiddenCharacter));
        assert_eq!(defect(&format!("Ursula {} Le Guin", c)), Some(ValidationError::ForbiddenCharacter));
        assert_eq!(defect(&format!("{}Ursula", c)), Some(ValidationError::ForbiddenCharacter));
        assert_eq!(defect(&format!("Ursula{}", c)), Some(ValidationError::ForbiddenCharacter));
    }
}

#[test]
fn characters_close_to_the_forbidden_ones_are_accepted() {
    for c in ['[', ']', '|', '\'', '.', '-', '_', '@', '&', '!', '?'] {
        assert_eq!(defect(&format!("Ursula {} Le Guin", c)), None);
    }
}

#[test]
fn the_text_is_kept_untrimmed() {
    let name = SubscriberName::parse("  Ursula Le Guin \n".to_string()).unwrap();
    assert_eq!(name.as_ref(), "  Ursula Le Guin \n");
}

#[test]
fn surrounding_whitespace_counts_towards_the_length() {
    let text = format!("{}a", " ".repeat(255));
    assert_eq!(defect(&text), None);
    let text = format!("{}a", " ".repeat(256));
    assert_eq!(defect(&text), Some(ValidationError::NameTooLong));
}

#[test]
fn blankness_is_reported_before_length_and_length_before_a_forbidden_character() {
    assert_eq!(defect(&" ".repeat(257)), Some(ValidationError::EmptyName));
    assert_eq!(defect(&"/".repeat(257)), Some(ValidationError::NameTooLong));
    assert_eq!(defect(&"/".repeat(256)), Some(ValidationError::ForbiddenCharacter));
}

#[test]
fn check_goes_by_the_count_it_is_given() {
    assert_eq!(SubscriberName::check("Ursula", 6), Ok(()));
    assert_eq!(SubscriberName::check("Ursula", MAX_NAME_GRAPHEMES), Ok(()));
    assert_eq!(
        SubscriberName::check("Ursula", MAX_NAME_GRAPHEMES + 1),
        Err(ValidationError::NameTooLong)
    );
    assert_eq!(SubscriberName::check("  ", 2), Err(ValidationError::EmptyName));
    assert_eq!(SubscriberName::check("  ", 1000), Err(ValidationError::EmptyName));
    assert_eq!(SubscriberName::check("a{b", 3), Err(ValidationError::ForbiddenCharacter));
    assert_eq!(SubscriberName::check("a{b", 257), Err(ValidationError::NameTooLong));
}

#[test]
fn the_limit_is_256() {
    assert_eq!(MAX_NAME_GRAPHEMES, 256);
}

#[test]
fn whitespace_is_what_the_standard_library_calls_whitespace() {
    for n in 0..=0x10FFFFu32 {
        if let Some(c) = char::from_u32(n) {
            assert_eq!(char_is_whitespace(c), c.is_whitespace(), "U+{:04X}", n);
        }
    }
}

#[test]
fn control_characters_are_what_the_standard_library_calls_control() {
    for n in 0..=0x10FFFFu32 {
        if let Some(c) = char::from_u32(n) {
            assert_eq!(char_is_control(c), c.is_control(), "U+{:04X}", n);
        }
    }
}

#[test]
fn blank_text_is_text_that_trims_to_nothing() {
    for text in ["", " ", "\t\n", "a", " a ", "\u{2003}", "\u{2003}.", "\u{200b}"] {
        assert_eq!(text_is_blank(text), text.trim().is_empty(), "{:?}", text);
    }
}

#[test]
fn exactly_nine_characters_are_forbidden() {
    let mut forbidden = Vec::new();
    for n in 0..=0x10FFFFu32 {
        if let Some(c) = char::from_u32(n) {
            if char_is_forbidden(c) {
                forbidden.push(c);
            }
        }
    }
    assert_eq!(forbidden, vec!['"', '(', ')', '/', '<', '>', '\\', '{', '}']);
}

#[test]
fn a_forbidden_character_is_found_wherever_it_stands() {
    assert!(!text_has_forbidden_character(""));
    assert!(!text_has_forbidden_character("Ursula Le Guin"));
    assert!(text_has_forbidden_character("<Ursula"));
    assert!(text_has_forbidden_character("Urs\\ula"));
    assert!(text_has_forbidden_character("Ursula}"));
}
