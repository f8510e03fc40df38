use foxguard::rules::go_taint::NodeMatcher;
use foxguard::rules::semgrep_taint::{
    compile_pattern, describe, is_dotted_identifier, is_identifier, map_severity, parse_taint_rule,
    MatcherRole, SemgrepTaintRule, TaintRuleParse,
};
use foxguard::rules::yaml_value::YamlValue;
use serde_yaml::Value;
use foxguard::{Language, Severity};

fn compile(pattern: &str, role: MatcherRole) -> Option<NodeMatcher> {
    compile_pattern(pattern, role)
}

#[test]
fn compile_attribute_source() {
    let m = compile("request.data", MatcherRole::Source).expect("attribute");
    match m {
        NodeMatcher::Attribute { root, field, .. } => {
            assert_eq!(root, "request");
            assert_eq!(field, "data");
        }
        _ => panic!("expected Attribute"),
    }
}

#[test]
fn compile_nested_attribute_takes_leftmost_root_and_outermost_field() {
    let m = compile("request.session.user_id", MatcherRole::Source).expect("attribute");
    match m {
        NodeMatcher::Attribute { root, field, .. } => {
            assert_eq!(root, "request");
            assert_eq!(field, "user_id");
        }
        _ => panic!("expected Attribute"),
    }
}

#[test]
fn compile_call_with_metavar() {
    let m = compile("pickle.loads($X)", MatcherRole::Sink).expect("call");
    match m {
        NodeMatcher::Call { canonical, .. } => assert_eq!(canonical, "pickle.loads"),
        _ => panic!("expected Call"),
    }
}

#[test]
fn compile_call_with_ellipsis() {
    let m = compile("pickle.loads(...)", MatcherRole::Sink).expect("call");
    match m {
        NodeMatcher::Call { canonical, .. } => assert_eq!(canonical, "pickle.loads"),
        _ => panic!("expected Call"),
    }
}

#[test]
fn compile_bare_func_call() {
    let m = compile("eval($X)", MatcherRole::Sink).expect("call");
    match m {
        NodeMatcher::Call { canonical, .. } => assert_eq!(canonical, "eval"),
        _ => panic!("expected Call"),
    }
}

#[test]
fn compile_bare_identifier_source() {
    let m = compile("request", MatcherRole::Source).expect("paramname");
    match m {
        NodeMatcher::ParamName { names, .. } => assert_eq!(names, vec!["request".to_string()]),
        _ => panic!("expected ParamName"),
    }
}

#[test]
fn bare_identifier_rejected_as_sink() {
    assert!(compile("request", MatcherRole::Sink).is_none());
}

#[test]
fn weird_shapes_rejected() {
    assert!(compile("$X + $Y", MatcherRole::Source).is_none());
    assert!(compile("a.b.c(d", MatcherRole::Sink).is_none());
    assert!(compile("", MatcherRole::Source).is_none());
}

#[test]
fn compiled_descriptions_name_the_role() {
    match compile("  os.system($CMD)  ", MatcherRole::Sink).expect("call") {
        NodeMatcher::Call { canonical, description } => {
            assert_eq!(canonical, "os.system");
            assert_eq!(description, "semgrep sink `os.system`");
        }
        _ => panic!("expected Call"),
    }
    match compile("request", MatcherRole::Source).expect("param") {
        NodeMatcher::ParamName { description, .. } => {
            assert_eq!(description, "untrusted `request` parameter")
        }
        _ => panic!("expected ParamName"),
    }
    assert_eq!(describe("html.escape", MatcherRole::Sanitizer), "semgrep sanitizer `html.escape`");
    assert_eq!(MatcherRole::Source.label(), "pattern-sources");
    assert_eq!(MatcherRole::Sink.label(), "pattern-sinks");
    assert_eq!(MatcherRole::Sanitizer.label(), "pattern-sanitizers");
}

#[test]
fn identifier_shapes() {
    assert!(is_identifier("_private1"));
    assert!(!is_identifier("1abc"));
    assert!(!is_identifier(""));
    assert!(is_dotted_identifier("a.b_c.D"));
    assert!(!is_dotted_identifier("a..b"));
    assert!(!is_dotted_identifier("a.b."));
    assert!(!is_dotted_identifier("$X"));
}

#[test]
fn severity_names_map_case_insensitively() {
    assert_eq!(map_severity("ERROR"), Severity::Critical);
    assert_eq!(map_severity("error"), Severity::Critical);
    assert_eq!(map_severity("Warning"), Severity::High);
    assert_eq!(map_severity("INFO"), Severity::Medium);
    assert_eq!(map_severity("whatever"), Severity::Medium);
}

fn to_model(v: &Value) -> YamlValue {
    match v {
        Value::Null => YamlValue::Null,
        Value::Bool(b) => YamlValue::Bool(*b),
        Value::Number(n) => YamlValue::Number(n.to_string()),
        Value::String(s) => YamlValue::String(s.clone()),
        Value::Sequence(s) => YamlValue::Sequence(s.iter().map(to_model).collect()),
        Value::Mapping(m) => YamlValue::Mapping(m.iter().map(|(k, v)| (to_model(k), to_model(v))).collect()),
        Value::Tagged(t) => to_model(&t.value),
    }
}

fn model(yaml: &str) -> YamlValue {
    let v: Value = serde_yaml::from_str(yaml).unwrap();
    to_model(&v)
}

#[test]
fn parse_full_taint_rule() {
    let yaml = r#"
id: semgrep-pickle-taint
mode: taint
languages: [python]
severity: ERROR
message: "Untrusted input reaches pickle.loads"
metadata:
  cwe: "CWE-502"
pattern-sources:
  - pattern: request.data
  - pattern: request
pattern-sinks:
  - pattern: pickle.loads($X)
"#;
    let v = model(yaml);
    match parse_taint_rule(&v).0 {
        TaintRuleParse::Compiled(r) => {
            assert_eq!(r.id, "semgrep/semgrep-pickle-taint");
            assert_eq!(r.lang, Language::Python);
            assert_eq!(r.cwe.as_deref(), Some("CWE-502"));
            assert_eq!(r.spec.sources.len(), 2);
            assert_eq!(r.spec.sinks.len(), 1);
        }
        TaintRuleParse::Skip(msg) => panic!("unexpected skip: {}", msg),
        TaintRuleParse::NotTaint => panic!("expected taint rule"),
    }
}

#[test]
fn non_taint_rule_falls_through() {
    let yaml = r#"
id: classic
pattern: eval(...)
message: x
severity: ERROR
languages: [python]
"#;
    let v = model(yaml);
    assert!(matches!(parse_taint_rule(&v).0, TaintRuleParse::NotTaint));
}

#[test]
fn taint_rule_with_non_python_language_is_skipped() {
    let yaml = r#"
id: x
mode: taint
languages: [javascript]
severity: ERROR
message: m
pattern-sources: [{pattern: req}]
pattern-sinks: [{pattern: eval($X)}]
"#;
    let v = model(yaml);
    assert!(matches!(parse_taint_rule(&v).0, TaintRuleParse::Skip(_)));
}

fn compiled(yaml: &str) -> SemgrepTaintRule {
    let v = model(yaml);
    match parse_taint_rule(&v).0 {
        TaintRuleParse::Compiled(r) => r,
        TaintRuleParse::Skip(msg) => panic!("unexpected skip: {}", msg),
        TaintRuleParse::NotTaint => panic!("expected taint rule"),
    }
}

#[test]
fn pattern_either_flattens_into_multiple_matchers() {
    let r = compiled(
        r#"
id: x
mode: taint
languages: [python]
severity: ERROR
message: m
pattern-sources:
  - pattern-either:
      - pattern: request.data
      - pattern: request.form
      - pattern: request.args
pattern-sinks:
  - pattern: pickle.loads($X)
"#,
    );
    assert_eq!(r.spec.sources.len(), 3);
    assert_eq!(r.spec.sinks.len(), 1);
}

#[test]
fn nested_pattern_either_flattens_recursively() {
    let r = compiled(
        r#"
id: x
mode: taint
languages: [python]
severity: ERROR
message: m
pattern-sources:
  - pattern-either:
      - pattern-either:
          - pattern: request.data
          - pattern: request.form
      - pattern: request.args
pattern-sinks:
  - pattern: pickle.loads($X)
"#,
    );
    assert_eq!(r.spec.sources.len(), 3);
}

#[test]
fn pattern_either_in_sinks_flattens() {
    let r = compiled(
        r#"
id: x
mode: taint
languages: [python]
severity: ERROR
message: m
pattern-sources:
  - pattern: request.data
pattern-sinks:
  - pattern-either:
      - pattern: pickle.loads($X)
      - pattern: pickle.load($X)
"#,
    );
    assert_eq!(r.spec.sinks.len(), 2);
}

#[test]
fn pattern_either_in_sanitizers_flattens() {
    let r = compiled(
        r#"
id: x
mode: taint
languages: [python]
severity: ERROR
message: m
pattern-sources:
  - pattern: request.data
pattern-sinks:
  - pattern: pickle.loads($X)
pattern-sanitizers:
  - pattern-either:
      - pattern: sanitize($X)
      - pattern: escape($X)
"#,
    );
    assert_eq!(r.spec.sanitizers.len(), 2);
}

#[test]
fn mixed_pattern_and_pattern_either_work_together() {
    let r = compiled(
        r#"
id: x
mode: taint
languages: [python]
severity: ERROR
message: m
pattern-sources:
  - pattern-either:
      - pattern: request.data
      - pattern: request.form
  - pattern: request
pattern-sinks:
  - pattern: pickle.loads($X)
  - pattern-either:
      - pattern: pickle.load($X)
"#,
    );
    assert_eq!(r.spec.sources.len(), 3);
    assert_eq!(r.spec.sinks.len(), 2);
}

#[test]
fn empty_pattern_either_warns_and_produces_no_matcher() {
    // Empty pattern-either in sources → no source matchers, so whole
    // rule is skipped (sources are required).
    let yaml = r#"
id: x
mode: taint
languages: [python]
severity: ERROR
message: m
pattern-sources:
  - pattern-either: []
pattern-sinks:
  - pattern: pickle.loads($X)
"#;
    let v = model(yaml);
    match parse_taint_rule(&v).0 {
        TaintRuleParse::Skip(msg) => assert!(msg.contains("pattern-sources")),
        other => panic!(
            "expected Skip because empty pattern-either produced no sources, got {:?}",
            match other {
                TaintRuleParse::Compiled(_) => "Compiled",
                TaintRuleParse::NotTaint => "NotTaint",
                TaintRuleParse::Skip(_) => unreachable!(),
            }
        ),
    }

    // Empty pattern-either in sanitizers → rule still compiles (sanitizers
    // are optional), but has zero sanitizer matchers.
    let r = compiled(
        r#"
id: x
mode: taint
languages: [python]
severity: ERROR
message: m
pattern-sources:
  - pattern: request.data
pattern-sinks:
  - pattern: pickle.loads($X)
pattern-sanitizers:
  - pattern-either: []
"#,
    );
    assert!(r.spec.sanitizers.is_empty());
}

#[test]
fn unknown_composite_still_rejected() {
    // `patterns:` inside a source block → entry is skipped with a
    // warning. With no other source entries the whole rule is skipped.
    let yaml = r#"
id: x
mode: taint
languages: [python]
severity: ERROR
message: m
pattern-sources:
  - patterns:
      - pattern: request.data
pattern-sinks:
  - pattern: pickle.loads($X)
"#;
    let v = model(yaml);
    assert!(matches!(parse_taint_rule(&v).0, TaintRuleParse::Skip(_)));

    // `pattern-inside:` likewise rejected per-entry.
    let yaml2 = r#"
id: x
mode: taint
languages: [python]
severity: ERROR
message: m
pattern-sources:
  - pattern-inside: |
      def $F(...):
        ...
pattern-sinks:
  - pattern: pickle.loads($X)
"#;
    let v2 = model(yaml2);
    assert!(matches!(parse_taint_rule(&v2).0, TaintRuleParse::Skip(_)));

    // But a mix where one entry is `patterns:` and another is a plain
    // `pattern:` still compiles — the bad entry is dropped, the good
    // one survives.
    let r = compiled(
        r#"
id: x
mode: taint
languages: [python]
severity: ERROR
message: m
pattern-sources:
  - patterns:
      - pattern: request.data
  - pattern: request.form
pattern-sinks:
  - pattern: pickle.loads($X)
"#,
    );
    assert_eq!(r.spec.sources.len(), 1);
}

#[test]
fn taint_rule_warnings_name_the_rule_and_list() {
    let v = model(
        r#"
id: w
mode: taint
languages: [python]
message: m
pattern-sources:
  - pattern: request.data
  - pattern-inside: x
  - {pattern: a, pattern-not: b}
  - just-a-string
pattern-sinks:
  - pattern: eval($X)
"#,
    );
    let (parse, warnings) = parse_taint_rule(&v);
    assert_eq!(warnings.len(), 3);
    assert!(warnings[0].starts_with("taint rule `w` pattern-sources uses unsupported key `pattern-inside`"));
    assert!(warnings[1].starts_with("taint rule `w` pattern-sources entry has 2 keys"));
    assert!(warnings[2].starts_with("taint rule `w` pattern-sources entry is not a mapping"));
    match parse {
        TaintRuleParse::Compiled(r) => {
            assert_eq!(r.severity, Severity::High);
            assert_eq!(r.message, "m");
            assert!(r.cwe.is_none());
        },
        _ => panic!("expected a compiled rule"),
    }
}

#[test]
fn taint_rule_without_id_or_languages_is_skipped() {
    match parse_taint_rule(&model("mode: taint\nlanguages: [python]\n")).0 {
        TaintRuleParse::Skip(m) => assert_eq!(m, "taint rule missing `id`"),
        _ => panic!("expected a skip"),
    }
    match parse_taint_rule(&model("mode: taint\nid: q\n")).0 {
        TaintRuleParse::Skip(m) => assert_eq!(m, "taint rule `q` missing `languages`"),
        _ => panic!("expected a skip"),
    }
    match parse_taint_rule(&model("mode: taint\nid: q\nlanguages: [Py]\npattern-sources: 3\n")).0 {
        TaintRuleParse::Skip(m) => assert_eq!(m, "taint rule `q` skipped: pattern-sources must be a list"),
        _ => panic!("expected a skip"),
    }
}

#[test]
fn call_form_must_close_at_the_end() {
    assert!(compile("eval($X) + f($Y)", MatcherRole::Sink).is_none());
    assert!(compile("f($X))", MatcherRole::Sink).is_none());
    match compile("pickle.loads(f($X))", MatcherRole::Sink) {
        Some(NodeMatcher::Call { canonical, .. }) => assert_eq!(canonical, "pickle.loads"),
        _ => panic!("expected a call matcher"),
    }
}

#[test]
fn unsupported_pattern_shape_skips_the_whole_rule() {
    let v = model(
        r#"
id: x
mode: taint
languages: [python]
severity: ERROR
message: m
pattern-sources:
  - pattern: request.data
  - pattern: "$X + $Y"
pattern-sinks:
  - pattern: pickle.loads($X)
"#,
    );
    match parse_taint_rule(&v).0 {
        TaintRuleParse::Skip(m) => {
            assert_eq!(m, "taint rule `x` skipped: pattern-sources unsupported pattern shape `$X + $Y`")
        },
        _ => panic!("expected the rule to be skipped"),
    }
    let nested = model(
        r#"
id: y
mode: taint
languages: [python]
pattern-sources:
  - pattern: request.data
pattern-sinks:
  - pattern-either:
      - pattern: pickle.loads($X)
      - pattern: "eval($X) + f($Y)"
"#,
    );
    assert!(matches!(parse_taint_rule(&nested).0, TaintRuleParse::Skip(_)));
}
