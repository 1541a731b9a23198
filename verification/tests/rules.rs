use komorebi::rules::should_act;
use komorebi::rules::should_act_individual;
use komorebi::rules::ApplicationIdentifier;
use komorebi::rules::IdWithIdentifier;
use komorebi::rules::MatchingRule;
use komorebi::rules::MatchingStrategy;
use komorebi::text::RegexIdentifiers;

fn identifier(kind: ApplicationIdentifier, id: &str, strategy: MatchingStrategy) -> IdWithIdentifier {
    IdWithIdentifier { kind, id: id.to_string(), matching_strategy: Some(strategy) }
}

fn matches_title(title: &str, id: &str, strategy: MatchingStrategy) -> bool {
    should_act_individual(
        title,
        "app.exe",
        "class",
        "C:\\app.exe",
        &identifier(ApplicationIdentifier::Title, id, strategy),
        &RegexIdentifiers::new(),
    )
}

#[test]
fn strategies_compare_texts() {
    assert!(matches_title("Editor - file", "Editor - file", MatchingStrategy::Equals));
    assert!(!matches_title("Editor - file", "Editor", MatchingStrategy::Equals));
    assert!(matches_title("Editor - file", "Editor", MatchingStrategy::StartsWith));
    assert!(!matches_title("Editor - file", "file", MatchingStrategy::StartsWith));
    assert!(matches_title("Editor - file", "file", MatchingStrategy::EndsWith));
    assert!(!matches_title("Editor - file", "Editor", MatchingStrategy::EndsWith));
    assert!(matches_title("Editor - file", "or - f", MatchingStrategy::Contains));
    assert!(!matches_title("Editor - file", "browser", MatchingStrategy::Contains));
    assert!(matches_title("Editor", "Browser", MatchingStrategy::DoesNotEqual));
    assert!(!matches_title("Editor", "Editor", MatchingStrategy::DoesNotEqual));
    assert!(matches_title("Editor", "Browser", MatchingStrategy::DoesNotStartWith));
    assert!(!matches_title("Editor", "Ed", MatchingStrategy::DoesNotStartWith));
    assert!(matches_title("Editor", "Browser", MatchingStrategy::DoesNotEndWith));
    assert!(!matches_title("Editor", "tor", MatchingStrategy::DoesNotEndWith));
    assert!(matches_title("Editor", "x", MatchingStrategy::DoesNotContain));
    assert!(!matches_title("Editor", "dit", MatchingStrategy::DoesNotContain));
}

#[test]
fn legacy_rules_look_at_both_ends_of_titles() {
    assert!(matches_title("Editor - file", "Editor", MatchingStrategy::Legacy));
    assert!(matches_title("Editor - file", "file", MatchingStrategy::Legacy));
    assert!(!matches_title("Editor - file", "or - f", MatchingStrategy::Legacy));
}

#[test]
fn regular_expressions_match_what_they_were_compiled_from() {
    let mut regexes = RegexIdentifiers::new();
    let rule = identifier(ApplicationIdentifier::Exe, "^app[0-9]+\\.exe$", MatchingStrategy::Regex);
    assert!(!should_act_individual("t", "app12.exe", "c", "p", &rule, &regexes));
    assert!(regexes.insert("^app[0-9]+\\.exe$".to_string(), "^app[0-9]+\\.exe$").is_ok());
    assert!(should_act_individual("t", "app12.exe", "c", "p", &rule, &regexes));
    assert!(!should_act_individual("t", "app.exe", "c", "p", &rule, &regexes));
}

#[test]
fn patterns_that_do_not_compile_are_refused() {
    let mut regexes = RegexIdentifiers::new();
    let error = regexes.insert("(".to_string(), "(").unwrap_err();
    assert!(error.contains("unclosed group"));
    assert!(regexes.get("(").is_none());
}

#[test]
fn later_expressions_replace_earlier_ones() {
    let mut regexes = RegexIdentifiers::new();
    regexes.insert("id".to_string(), "^a$").unwrap();
    regexes.insert("id".to_string(), "^b$").unwrap();
    let rule = identifier(ApplicationIdentifier::Class, "id", MatchingStrategy::Regex);
    assert!(!should_act_individual("t", "e", "a", "p", &rule, &regexes));
    assert!(should_act_individual("t", "e", "b", "p", &rule, &regexes));
}

#[test]
fn the_last_matching_rule_acts() {
    let rules = vec![
        MatchingRule::simple(
            ApplicationIdentifier::Exe,
            "app.exe".to_string(),
            MatchingStrategy::Equals,
        ),
        MatchingRule::simple(
            ApplicationIdentifier::Class,
            "class".to_string(),
            MatchingStrategy::Equals,
        ),
    ];
    let regexes = RegexIdentifiers::new();
    let found = should_act("t", "app.exe", "class", "p", &rules, &regexes).unwrap();
    assert!(found.is_same(&rules[1]));
    let found = should_act("t", "app.exe", "other", "p", &rules, &regexes).unwrap();
    assert!(found.is_same(&rules[0]));
    assert!(should_act("t", "other.exe", "other", "p", &rules, &regexes).is_none());
}

#[test]
fn all_parts_of_a_composite_rule_match() {
    let rules = vec![MatchingRule::Composite(vec![
        identifier(ApplicationIdentifier::Exe, "app.exe", MatchingStrategy::Equals),
        identifier(ApplicationIdentifier::Title, "Settings", MatchingStrategy::StartsWith),
    ])];
    let regexes = RegexIdentifiers::new();
    assert!(should_act("Settings", "app.exe", "c", "p", &rules, &regexes).is_some());
    assert!(should_act("Editor", "app.exe", "c", "p", &rules, &regexes).is_none());
}

#[test]
fn texts_are_compared_by_their_characters() {
    assert!(matches_title("Gr\u{fc}\u{df}e - \u{6587}", "Gr\u{fc}\u{df}e - \u{6587}", MatchingStrategy::Equals));
    assert!(!matches_title("Gr\u{fc}\u{df}e", "Gr\u{fc}\u{dc}e", MatchingStrategy::Equals));
    assert!(matches_title("Gr\u{fc}\u{df}e - \u{6587}", "Gr\u{fc}", MatchingStrategy::StartsWith));
    assert!(matches_title("Gr\u{fc}\u{df}e - \u{6587}", "- \u{6587}", MatchingStrategy::EndsWith));
    assert!(matches_title("Gr\u{fc}\u{df}e - \u{6587}", "\u{fc}\u{df}", MatchingStrategy::Contains));
    assert!(!matches_title("Gr\u{fc}\u{df}e", "\u{df}\u{fc}", MatchingStrategy::Contains));
    assert!(matches_title("Editor", "", MatchingStrategy::Contains));
    assert!(matches_title("", "", MatchingStrategy::Contains));
    assert!(matches_title("", "", MatchingStrategy::StartsWith));
    assert!(matches_title("Editor", "", MatchingStrategy::EndsWith));
    assert!(!matches_title("Ed", "Editor", MatchingStrategy::StartsWith));
    assert!(!matches_title("or", "Editor", MatchingStrategy::EndsWith));
    assert!(!matches_title("or", "Editor", MatchingStrategy::Contains));
}
