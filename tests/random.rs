use jsonapi_client::random::Random;
use regex::Regex;

#[test]
fn random_alphanumeric_passing() {
    let length: usize = 10;
    let charset: &str = r"^[a-zA-Z0-9]+$";
    let re = Regex::new(charset).unwrap();
    let generator = Random::default();
    let actual = generator.generate(length).unwrap();
    assert_eq!(length, actual.len());
    if length > 0 {
        assert!(re.is_match(actual.as_str()));
    }
}

#[test]
fn random_special_chars_passing() {
    let length: usize = 10;
    let charset: &str = r"^[&#@!%]+$";
    let re = Regex::new(charset).unwrap();
    let generator = Random::new(charset.to_string());
    let actual = generator.generate(length).unwrap();
    assert_eq!(length, actual.len());
    if length > 0 {
        assert!(re.is_match(actual.as_str()));
    }
}

#[test]
fn random_custom_regex_passing() {
    let length: usize = 200;
    let charset: &str = r"^[[&^#$@!%][:alnum:]]+$";
    let re = Regex::new(charset).unwrap();
    let generator = Random::new(charset.to_string());
    let actual = generator.generate(length).unwrap();
    assert_eq!(length, actual.len());
    if length > 0 {
        assert!(re.is_match(actual.as_str()));
    }
}

#[test]
fn random_invalid_pattern_gives_none() {
    let generator = Random::new("[".to_string());
    assert_eq!(generator.generate(5), None);
    assert_eq!(generator.alphabet(), None);
}

#[test]
fn random_pattern_matching_nothing() {
    let generator = Random::new("^ab$".to_string());
    assert_eq!(generator.alphabet(), Some(vec![]));
    assert_eq!(generator.generate(3), None);
    assert_eq!(generator.generate(0), Some(String::new()));
}

#[test]
fn random_alphabet_lists_accepted_characters() {
    let generator = Random::new("^[c-e]$".to_string());
    assert_eq!(generator.alphabet(), Some(vec!['c', 'd', 'e']));
    let s = generator.generate(50).unwrap();
    assert_eq!(s.chars().count(), 50);
    assert!(s.chars().all(|c| ('c'..='e').contains(&c)));
}
