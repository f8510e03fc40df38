use foxguard::engine::parser::parse_file;
use foxguard::rules::semgrep_compat::{
    is_metavar, PatternClause, PatternEntry, SemgrepFile, SemgrepMetavariableRegexClause, SemgrepPaths,
    SemgrepRuleYaml, SemgrepSeverity,
};
use foxguard::rules::semgrep_rule::{
    build_matcher, compile_regex, compile_semgrep_file, PathFilter, PatternMatcher, SemgrepRule,
};
use foxguard::rules::Rule;
use foxguard::{Language, Severity};

fn rule(id: &str, message: &str, severity: SemgrepSeverity, languages: &[&str]) -> SemgrepRuleYaml {
    SemgrepRuleYaml {
        id: id.to_string(),
        pattern: None,
        pattern_regex: None,
        pattern_either: None,
        pattern_not: None,
        pattern_not_regex: None,
        pattern_inside: None,
        pattern_not_inside: None,
        patterns: None,
        message: message.to_string(),
        severity,
        languages: languages.iter().map(|s| s.to_string()).collect(),
        metadata: None,
        paths: None,
    }
}

fn clause() -> PatternClause {
    PatternClause {
        pattern: None,
        pattern_regex: None,
        pattern_not: None,
        pattern_not_regex: None,
        pattern_inside: None,
        pattern_not_inside: None,
        pattern_either: None,
        metavariable_regex: None,
    }
}

fn entry(pattern: &str) -> PatternEntry {
    PatternEntry { pattern: Some(pattern.to_string()), pattern_regex: None }
}

fn compile(y: SemgrepRuleYaml) -> Vec<SemgrepRule> {
    compile_semgrep_file(&SemgrepFile { rules: vec![y] }).unwrap()
}

fn check(rule: &SemgrepRule, source: &str, language: Language) -> Vec<foxguard::Finding> {
    let tree = parse_file(source, language).unwrap();
    rule.check(source, &tree)
}

#[test]
fn test_parse_simple_rule() {
    let mut y = rule("test-eval", "Do not use eval", SemgrepSeverity::Error, &["python"]);
    y.pattern = Some("eval(...)".to_string());
    let rules = compile(y);
    assert_eq!(rules.len(), 1);
    assert_eq!(rules[0].id(), "semgrep/test-eval");
    assert_eq!(rules[0].severity(), Severity::Critical);
}

#[test]
fn test_parse_pattern_either() {
    let mut y = rule("dangerous-funcs", "Dangerous function", SemgrepSeverity::Warning, &["python"]);
    y.pattern_either = Some(vec![entry("eval(...)"), entry("exec(...)")]);
    let rules = compile(y);
    assert_eq!(rules.len(), 1);
}

#[test]
fn test_dedup_mapped_languages() {
    let mut y = rule(
        "js-send",
        "Exact Express response send call",
        SemgrepSeverity::Warning,
        &["javascript", "typescript"],
    );
    y.pattern = Some("res.send(\"Hello World\")".to_string());
    let rules = compile(y);
    assert_eq!(rules.len(), 1);
    assert_eq!(rules[0].language(), Language::JavaScript);
}

#[test]
fn test_metavar_detection() {
    assert!(is_metavar("$VAR"));
    assert!(is_metavar("$X"));
    assert!(is_metavar("$DB_NAME"));
    assert!(!is_metavar("$"));
    assert!(!is_metavar("foo"));
    assert!(!is_metavar("$foo.bar"));
}

#[test]
fn test_match_eval_pattern() {
    let mut y = rule("test-eval", "No eval", SemgrepSeverity::Error, &["python"]);
    y.pattern = Some("eval(...)".to_string());
    let rules = compile(y);

    let source = "x = eval(user_input)\ny = safe_func()\n";
    let findings = check(&rules[0], source, Language::Python);
    assert_eq!(findings.len(), 1);
    assert_eq!(findings[0].line, 1);
}

#[test]
fn test_match_hardcoded_string() {
    let mut y = rule("hardcoded-password", "Hardcoded password", SemgrepSeverity::Warning, &["python"]);
    y.pattern = Some("password = \"...\"".to_string());
    let rules = compile(y);

    let source = "password = \"supersecret\"\nusername = \"admin\"\n";
    let findings = check(&rules[0], source, Language::Python);
    assert_eq!(findings.len(), 1);
    assert_eq!(findings[0].line, 1);
}

#[test]
fn test_match_string_concat_with_metavar() {
    let mut y = rule("string-concat", "String concatenation", SemgrepSeverity::Warning, &["python"]);
    y.pattern = Some("\"...\" + $VAR".to_string());
    let rules = compile(y);

    let source = "query = \"SELECT \" + user_input\nsafe = 1 + 2\n";
    let findings = check(&rules[0], source, Language::Python);
    assert_eq!(findings.len(), 1);
    assert_eq!(findings[0].line, 1);
}

#[test]
fn test_match_pattern_regex() {
    let mut y = rule("regex-secret", "Regex secret", SemgrepSeverity::Error, &["python"]);
    y.pattern_regex = Some("(?m)^SECRET_KEY\\s*=".to_string());
    let rules = compile(y);

    let source = "password = \"supersecret\"\nSECRET_KEY = \"django-secret\"\n";
    let findings = check(&rules[0], source, Language::Python);
    assert_eq!(findings.len(), 1);
    assert_eq!(findings[0].line, 2);
}

#[test]
fn test_pattern_not_regex_filters_matches() {
    let mut y = rule("password-assign", "Password assignment", SemgrepSeverity::Warning, &["python"]);
    let mut c1 = clause();
    c1.pattern_regex = Some("(?m)^.*password.*=".to_string());
    let mut c2 = clause();
    c2.pattern_not_regex = Some("not_password".to_string());
    y.patterns = Some(vec![c1, c2]);
    let rules = compile(y);

    let source = "password = \"supersecret\"\nnot_password = \"safe\"\n";
    let findings = check(&rules[0], source, Language::Python);
    assert_eq!(findings.len(), 1);
    assert_eq!(findings[0].line, 1);
}

#[test]
fn test_metavariable_regex_filters_bound_matches() {
    let mut y = rule("user-input-only", "user input only", SemgrepSeverity::Error, &["python"]);
    let mut c1 = clause();
    c1.pattern = Some("\"...\" + $VAR".to_string());
    let mut c2 = clause();
    c2.metavariable_regex = Some(SemgrepMetavariableRegexClause {
        metavariable: "$VAR".to_string(),
        regex: "^user_input$".to_string(),
    });
    y.patterns = Some(vec![c1, c2]);
    let rules = compile(y);

    let source = "query = \"SELECT \" + user_input\nquery2 = \"SELECT \" + safe_value\n";
    let findings = check(&rules[0], source, Language::Python);
    assert_eq!(findings.len(), 1);
    assert_eq!(findings[0].line, 1);
}

#[test]
fn test_pattern_not_inside_excludes_nested_matches() {
    let mut y = rule("redirect-outside-helpers", "redirect outside helper", SemgrepSeverity::Warning, &["python"]);
    let mut c1 = clause();
    c1.pattern = Some("redirect(...)".to_string());
    let mut c2 = clause();
    c2.pattern_not_inside = Some("def safe_redirect(...):\n  ...\n".to_string());
    y.patterns = Some(vec![c1, c2]);
    let rules = compile(y);

    let source = "def safe_redirect(url):\n    return redirect(url)\n\ndef do_redirect(url):\n    return redirect(url)\n";
    let findings = check(&rules[0], source, Language::Python);
    assert_eq!(findings.len(), 1);
    assert_eq!(findings[0].line, 5);
}

// ─── Compilation of rules ────────────────────────────────────────────────

#[test]
fn invalid_regex_error_names_the_expression() {
    let mut y = rule("bad", "bad", SemgrepSeverity::Info, &["python"]);
    y.pattern_regex = Some("(unclosed".to_string());
    let err = compile_semgrep_file(&SemgrepFile { rules: vec![y] }).err().unwrap();
    assert!(err.starts_with("Invalid pattern-regex '(unclosed': "));
    assert!(compile_regex("a+b").is_ok());
    assert!(compile_regex("[").is_err());
}

#[test]
fn lone_positive_is_the_matcher_itself() {
    let mut y = rule("one", "one", SemgrepSeverity::Info, &["python"]);
    y.pattern = Some("eval(...)".to_string());
    match build_matcher(&y).unwrap() {
        PatternMatcher::Single(s) => assert_eq!(s, "eval(...)"),
        _ => panic!("expected a single pattern"),
    }
}

#[test]
fn positive_with_negative_combines() {
    let mut y = rule("two", "two", SemgrepSeverity::Info, &["python"]);
    y.pattern = Some("eval(...)".to_string());
    y.pattern_not = Some("eval(\"1\")".to_string());
    match build_matcher(&y).unwrap() {
        PatternMatcher::Combined { positives, negatives, inside, not_inside, metavariable_regexes } => {
            assert_eq!(positives.len(), 1);
            assert_eq!(negatives.len(), 1);
            assert!(inside.is_none());
            assert!(not_inside.is_none());
            assert!(metavariable_regexes.is_empty());
        },
        _ => panic!("expected a combined matcher"),
    }
}

#[test]
fn rule_without_positive_matches_nothing() {
    let mut y = rule("none", "none", SemgrepSeverity::Info, &["python"]);
    y.pattern_not = Some("eval(...)".to_string());
    match build_matcher(&y).unwrap() {
        PatternMatcher::Either(v) => assert!(v.is_empty()),
        _ => panic!("expected an empty alternative"),
    }
    let rules = compile(y);
    assert!(check(&rules[0], "eval(1)\n", Language::Python).is_empty());
}

#[test]
fn later_inside_clause_replaces_earlier() {
    let mut y = rule("in", "in", SemgrepSeverity::Info, &["python"]);
    let mut c1 = clause();
    c1.pattern = Some("f(...)".to_string());
    c1.pattern_inside = Some("def a(...):\n  ...\n".to_string());
    let mut c2 = clause();
    c2.pattern_inside = Some("def b(...):\n  ...\n".to_string());
    y.patterns = Some(vec![c1, c2]);
    match build_matcher(&y).unwrap() {
        PatternMatcher::Combined { inside, .. } => assert_eq!(inside.unwrap(), "def b(...):\n  ...\n"),
        _ => panic!("expected a combined matcher"),
    }
}

#[test]
fn one_rule_per_named_language() {
    let mut y = rule("multi", "multi", SemgrepSeverity::Warning, &["python", "go", "py", "cobol"]);
    y.pattern = Some("eval(...)".to_string());
    let rules = compile(y);
    assert_eq!(rules.len(), 2);
    assert_eq!(rules[0].language(), Language::Python);
    assert_eq!(rules[1].language(), Language::Go);
    assert_eq!(rules[1].severity(), Severity::High);
}

#[test]
fn path_filter_globs() {
    let paths = SemgrepPaths { included: vec!["src/**".to_string()], excluded: vec!["**/test_*.py".to_string()] };
    let filter = PathFilter::from_yaml(Some(&paths)).unwrap().unwrap();
    assert!(filter.matches("src/app.py"));
    assert!(!filter.matches("lib/app.py"));
    assert!(!filter.matches("src/test_app.py"));
    assert!(PathFilter::from_yaml(None).unwrap().is_none());
    let bad = SemgrepPaths { included: vec!["a[".to_string()], excluded: vec![] };
    let err = PathFilter::from_yaml(Some(&bad)).err().unwrap();
    assert!(err.starts_with("Invalid paths glob 'a[': "));
}

#[test]
fn rule_applies_to_filtered_paths_only() {
    let mut y = rule("scoped", "scoped", SemgrepSeverity::Info, &["python"]);
    y.pattern = Some("eval(...)".to_string());
    y.paths = Some(SemgrepPaths { included: vec![], excluded: vec!["vendor/**".to_string()] });
    let rules = compile(y);
    assert!(rules[0].applies_to_path("app/main.py"));
    assert!(!rules[0].applies_to_path("vendor/lib.py"));
}

#[test]
fn pattern_either_reports_one_result_per_span() {
    let mut y = rule("either", "either", SemgrepSeverity::Info, &["python"]);
    y.pattern_either = Some(vec![entry("eval($X)"), entry("eval(...)")]);
    let rules = compile(y);
    let findings = check(&rules[0], "b = eval(a)\neval(c)\n", Language::Python);
    assert_eq!(findings.len(), 2);
    assert_eq!(findings[0].line, 1);
    assert_eq!(findings[1].line, 2);
}
