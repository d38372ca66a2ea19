use phenopacket_tools::curie::{check_curie, check_valid_curie, ontology_class, SuffixPolicy};
use phenopacket_tools::error::{Error, ErrorKind};

fn kind_of(s: &str) -> Option<ErrorKind> {
    check_valid_curie(s).err().map(|e| e.kind())
}

#[test]
fn valid_curie_is_accepted() {
    assert!(check_valid_curie("HP:0002162").is_ok());
    assert!(check_valid_curie("MONDO:0017309").is_ok());
    assert!(check_valid_curie("UCUM:mg").is_ok());
}

#[test]
fn curie_without_colon_is_missing_separator() {
    let r = check_valid_curie("HP0002162");
    assert!(matches!(&r, Err(Error::MissingSeparator(s)) if s == "HP0002162"));
}

#[test]
fn curie_with_trailing_space_is_stray_whitespace() {
    let r = check_valid_curie("MONDO:0017309 ");
    assert!(matches!(&r, Err(Error::StrayWhitespace(s)) if s == "MONDO:0017309 "));
}

#[test]
fn empty_curie_is_empty_identifier() {
    assert!(matches!(check_valid_curie(""), Err(Error::EmptyIdentifier)));
}

#[test]
fn whitespace_anywhere_is_refused() {
    assert_eq!(kind_of("HP :1"), Some(ErrorKind::StrayWhitespace));
    assert_eq!(kind_of("\tHP:1"), Some(ErrorKind::StrayWhitespace));
    assert_eq!(kind_of("HP:1\u{3000}"), Some(ErrorKind::StrayWhitespace));
    assert_eq!(kind_of("HP:1:2 "), Some(ErrorKind::StrayWhitespace));
    // no separator is reported before whitespace
    assert_eq!(kind_of("HP 1"), Some(ErrorKind::MissingSeparator));
}

#[test]
fn several_colons_are_refused() {
    assert_eq!(kind_of("HP:00:02"), Some(ErrorKind::MultipleSeparators));
    assert_eq!(kind_of("::"), Some(ErrorKind::MultipleSeparators));
    assert_eq!(kind_of("abc"), Some(ErrorKind::MissingSeparator));
}

#[test]
fn empty_prefix_and_suffix_are_refused() {
    assert_eq!(kind_of(":0002162"), Some(ErrorKind::EmptyPrefix));
    assert_eq!(kind_of("HP:"), Some(ErrorKind::EmptySuffix));
    assert_eq!(kind_of(":"), Some(ErrorKind::EmptyPrefix));
}

#[test]
fn suffix_characters_follow_the_policy() {
    assert_eq!(kind_of("UCUM:mm[Hg]"), Some(ErrorKind::InvalidSuffixCharacters));
    assert_eq!(kind_of("HP:00-1"), Some(ErrorKind::InvalidSuffixCharacters));
    assert!(check_curie("HP:0002162", SuffixPolicy::Numeric).is_ok());
    let r = check_curie("UCUM:mg", SuffixPolicy::Numeric);
    assert!(matches!(&r, Err(Error::InvalidSuffixCharacters(s)) if s == "UCUM:mg"));
    assert!(check_curie("UCUM:mg", SuffixPolicy::Alphanumeric).is_ok());
}

#[test]
fn test_valid_terms() {
    for (id, label) in [("HP:0002162", "Low posterior hairline"), ("MONDO:0017309", "neonatal Marfan syndrome")] {
        let term = ontology_class(id, label).unwrap();
        assert_eq!(id, term.id);
        assert_eq!(label, term.label);
    }
}

#[test]
fn test_invalid_terms() {
    let r = ontology_class("HP0002162", "Low posterior hairline");
    assert!(matches!(&r, Err(Error::MissingSeparator(s)) if s == "HP0002162"));
    let r = ontology_class("MONDO:0017309 ", "neonatal Marfan syndrome");
    assert!(matches!(&r, Err(Error::StrayWhitespace(s)) if s == "MONDO:0017309 "));
}
