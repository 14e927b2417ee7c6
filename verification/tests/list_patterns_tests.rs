//! Tests for the list-joiner patterns, carried over from the pattern
//! provider's own suite, plus parsing and replacement cases.

use codepointtrie::list_patterns::ConditionalListJoinerPattern;
use codepointtrie::list_patterns::ListFormatterPatternsV1;
use codepointtrie::list_patterns::PatternError;
use codepointtrie::list_patterns::StringMatcher;
use codepointtrie::list_patterns::Width;

fn test_patterns() -> ListFormatterPatternsV1 {
    ListFormatterPatternsV1::new(vec![
        // Wide: general
        ConditionalListJoinerPattern::from_str("{0}: {1}").unwrap(),
        ConditionalListJoinerPattern::from_str("{0}, {1}").unwrap(),
        ConditionalListJoinerPattern::from_str("{0}. {1}!").unwrap(),
        ConditionalListJoinerPattern::from_str("{0}; {1}").unwrap(),
        // Short: different pattern lengths
        ConditionalListJoinerPattern::from_str("{0}1{1}").unwrap(),
        ConditionalListJoinerPattern::from_str("{0}12{1}").unwrap(),
        ConditionalListJoinerPattern::from_str("{0}12{1}34").unwrap(),
        ConditionalListJoinerPattern::from_str("{0}123{1}456").unwrap(),
        // Narrow: conditionals
        ConditionalListJoinerPattern::from_str("{0}: {1}").unwrap(),
        ConditionalListJoinerPattern::from_str("{0}, {1}").unwrap(),
        ConditionalListJoinerPattern::from_regex_and_strs("^A", "{0} :o {1}", "{0}. {1}").unwrap(),
        ConditionalListJoinerPattern::from_regex_and_strs("^A", "{0} :o {1}", "{0}. {1}").unwrap(),
    ])
}

#[test]
fn produces_correct_parts() {
    assert_eq!(test_patterns().end(Width::Wide).parts(""), (". ", "!"));
}

#[test]
fn produces_correct_parts_conditionally() {
    assert_eq!(test_patterns().end(Width::Narrow).parts("A"), (" :o ", ""));
    assert_eq!(test_patterns().end(Width::Narrow).parts("B"), (". ", ""));
}

#[test]
fn size_hint_works() {
    let pattern = test_patterns();

    assert_eq!(pattern.size_hint(Width::Short, 0), 0);
    assert_eq!(pattern.size_hint(Width::Short, 1), 0);

    // pair pattern "{0}123{1}456"
    assert_eq!(pattern.size_hint(Width::Short, 2), 6);

    // patterns "{0}1{1}", "{0}12{1}" (x197), and "{0}12{1}34"
    assert_eq!(pattern.size_hint(Width::Short, 200), 1 + 2 * 197 + 4);

    // patterns "{0}: {1}", "{0}, {1}" (x197), and "{0} :o {1}" or "{0}. {1}"
    assert_eq!(pattern.size_hint(Width::Narrow, 200), 2 + 197 * 2 + 4);
}

#[test]
fn condition_is_case_insensitive() {
    assert_eq!(test_patterns().end(Width::Narrow).parts("a"), (" :o ", ""));
}

#[test]
fn parsing_rejects_malformed_patterns() {
    // The first placeholder must come first, at the very beginning.
    assert!(matches!(
        ConditionalListJoinerPattern::from_str("{1} and {0}"),
        Err(PatternError::IllegalPattern(_))
    ));
    // Both placeholders must be present.
    assert!(matches!(
        ConditionalListJoinerPattern::from_str("{0} and then"),
        Err(PatternError::IllegalPattern(_))
    ));
    assert!(matches!(
        ConditionalListJoinerPattern::from_str(""),
        Err(PatternError::IllegalPattern(_))
    ));
    // A second placeholder too far out does not fit the recorded byte.
    let mut far = String::from("{0}");
    for _ in 0..300 {
        far.push('x');
    }
    far.push_str("{1}");
    assert!(matches!(
        ConditionalListJoinerPattern::from_str(&far),
        Err(PatternError::IllegalPattern(_))
    ));
    // The same distance within range parses.
    let mut near = String::from("{0}");
    for _ in 0..255 {
        near.push('x');
    }
    near.push_str("{1}");
    assert!(ConditionalListJoinerPattern::from_str(&near).is_ok());
}

#[test]
fn matcher_rejects_bad_expressions() {
    assert!(matches!(StringMatcher::new("(unclosed"), Err(PatternError::IllegalPattern(_))));
    assert!(StringMatcher::new("^A").is_ok());
    assert!(matches!(
        ConditionalListJoinerPattern::from_regex_and_strs("(unclosed", "{0}a{1}", "{0}b{1}"),
        Err(PatternError::IllegalPattern(_))
    ));
}

#[test]
fn replace_patterns_replaces_equal_entries() {
    let mut patterns = test_patterns();
    let old_pattern = ConditionalListJoinerPattern::from_str("{0}: {1}").unwrap();
    let new_pattern = ConditionalListJoinerPattern::from_str("{0} & {1}").unwrap();
    patterns.replace_patterns(&old_pattern, &new_pattern);
    // Both the wide and the narrow start pattern were "{0}: {1}".
    assert_eq!(patterns.start(Width::Wide).parts(""), (" & ", ""));
    assert_eq!(patterns.start(Width::Narrow).parts(""), (" & ", ""));
    // Others are untouched.
    assert_eq!(patterns.middle(Width::Wide).parts(""), (", ", ""));
    assert_eq!(patterns.end(Width::Wide).parts(""), (". ", "!"));
}

#[test]
fn parts_of_unconditional_pattern_ignore_following_text() {
    let p = ConditionalListJoinerPattern::from_str("{0}; {1}").unwrap();
    assert_eq!(p.parts("A"), ("; ", ""));
    assert_eq!(p.parts(""), ("; ", ""));
    assert_eq!(p.size_hint(), 2);
}

#[test]
fn conditional_size_hint_is_the_longer_case() {
    let p = ConditionalListJoinerPattern::from_regex_and_strs("^A", "{0} :o {1}", "{0}. {1}").unwrap();
    assert_eq!(p.size_hint(), 4);
}
