use foxguard::engine::scanner::{
    apply_inline_ignores, comment_markers, detect_language, inline_ignore_directives, is_comment_only_line,
    is_minified, is_noise_path, parse_inline_ignore, sort_findings, with_file, InlineIgnoreSpec,
};
use foxguard::{Finding, Language, Severity};

fn finding(rule: &str, file: &str, line: usize, column: usize) -> Finding {
    Finding {
        rule_id: rule.to_string(),
        severity: Severity::High,
        cwe: None,
        description: String::new(),
        file: file.to_string(),
        line,
        column,
        end_line: line,
        end_column: column + 1,
        snippet: String::new(),
    }
}

#[test]
fn languages_by_extension() {
    assert_eq!(detect_language("src/app.tsx"), Some(Language::JavaScript));
    assert_eq!(detect_language("lib/mod.cjs"), Some(Language::JavaScript));
    assert_eq!(detect_language("a/b.pyw"), Some(Language::Python));
    assert_eq!(detect_language("main.go"), Some(Language::Go));
    assert_eq!(detect_language("x.gemspec"), Some(Language::Ruby));
    assert_eq!(detect_language("A.java"), Some(Language::Java));
    assert_eq!(detect_language("index.php"), Some(Language::Php));
    assert_eq!(detect_language("lib.rs"), Some(Language::Rust));
    assert_eq!(detect_language("P.cs"), Some(Language::CSharp));
    assert_eq!(detect_language("V.swift"), Some(Language::Swift));
    assert_eq!(detect_language("Makefile"), None);
    assert_eq!(detect_language("notes.txt"), None);
    assert_eq!(detect_language("dir.go/README"), None);
}

#[test]
fn noise_paths() {
    assert!(is_noise_path("app/node_modules/x/index.js"));
    assert!(is_noise_path("/repo/vendor/lib.go"));
    assert!(is_noise_path("site/dist/bundle.js"));
    assert!(is_noise_path("assets/app.min.js"));
    assert!(!is_noise_path("src/main.rs"));
    assert!(!is_noise_path("vendor_tools/x.py"));
}

#[test]
fn minified_sources() {
    assert!(!is_minified("short"));
    let one_line = "a".repeat(2001);
    assert!(is_minified(&one_line));
    let long_first = format!("{}\n{}", "b".repeat(1001), "c\n".repeat(600));
    assert!(is_minified(&long_first));
    let normal = "let x = 1;\n".repeat(300);
    assert!(!is_minified(&normal));
    let wide = format!("{}\n", "d".repeat(400)).repeat(6);
    assert!(is_minified(&wide));
}

#[test]
fn comment_markers_per_language() {
    assert_eq!(comment_markers(Language::Python), vec!["#"]);
    assert_eq!(comment_markers(Language::Php), vec!["//", "#"]);
    assert_eq!(comment_markers(Language::Go), vec!["//"]);
    assert!(is_comment_only_line("// note", Language::Rust));
    assert!(!is_comment_only_line("let x = 1;", Language::Rust));
    assert!(is_comment_only_line("# note", Language::Ruby));
}

#[test]
fn inline_ignore_parsing() {
    let (alone, spec) = parse_inline_ignore("  # foxguard: ignore", Language::Python).unwrap();
    assert!(alone);
    assert!(spec.all_rules);
    let (alone, spec) = parse_inline_ignore("x = 1  # foxguard: ignore[py/a, py/b]", Language::Python).unwrap();
    assert!(!alone);
    assert!(!spec.all_rules);
    assert!(spec.matches("py/a"));
    assert!(spec.matches("py/b"));
    assert!(!spec.matches("py/c"));
    let (_, spec) = parse_inline_ignore("f() // foxguard:ignore[ , ]", Language::Go).unwrap();
    assert!(spec.all_rules);
    assert!(parse_inline_ignore("x = 1  # foxguard: ignored", Language::Python).is_none());
    assert!(parse_inline_ignore("x = 1  // foxguard: ignore", Language::Python).is_none());
}

#[test]
fn inline_ignore_spec_merge() {
    let mut a = InlineIgnoreSpec::default();
    assert!(!a.matches("x"));
    let mut b = InlineIgnoreSpec::default();
    b.rule_ids.push("x".to_string());
    a.merge(b);
    assert!(a.matches("x"));
    assert!(!a.all_rules);
}

#[test]
fn inline_ignores_suppress_next_code_line_and_same_line() {
    let source = "a = 1\n# foxguard: ignore[py/no-eval]\n\n# another comment\neval(x)\neval(y)  # foxguard: ignore\neval(z)\n";
    let directives = inline_ignore_directives(source, Language::Python);
    assert!(directives.suppresses(5, "py/no-eval"));
    assert!(!directives.suppresses(5, "py/other"));
    assert!(directives.suppresses(6, "anything"));
    assert!(!directives.suppresses(7, "py/no-eval"));
    let kept = apply_inline_ignores(
        vec![
            finding("py/no-eval", "f.py", 5, 1),
            finding("py/no-eval", "f.py", 6, 1),
            finding("py/no-eval", "f.py", 7, 1),
            finding("py/other", "f.py", 5, 1),
        ],
        &directives,
    );
    assert_eq!(kept.len(), 2);
    assert_eq!(kept[0].line, 7);
    assert_eq!(kept[1].rule_id, "py/other");
}

#[test]
fn findings_sorted_by_file_line_column() {
    let sorted = sort_findings(vec![
        finding("r1", "b.py", 1, 1),
        finding("r2", "a.py", 3, 2),
        finding("r3", "a.py", 3, 1),
        finding("r4", "a.py", 1, 9),
    ]);
    let order: Vec<&str> = sorted.iter().map(|f| f.rule_id.as_str()).collect();
    assert_eq!(order, vec!["r4", "r3", "r2", "r1"]);
}

#[test]
fn with_file_sets_the_file_only() {
    let out = with_file(vec![finding("r", "", 4, 2)], "src/x.py");
    assert_eq!(out[0].file, "src/x.py");
    assert_eq!(out[0].line, 4);
    assert_eq!(out[0].rule_id, "r");
}

#[test]
fn parsed_tree_is_rooted_at_node_zero() {
    let source = "package main\nfunc f() { x := 1; _ = x }\n";
    let tree = foxguard::engine::parser::parse_file(source, foxguard::Language::Go).expect("parse");
    let n = tree.len();
    assert!(n >= 1);
    let root = tree.node(0);
    assert_eq!(root.parent, None);
    assert_eq!(root.field, None);
    assert_eq!(root.subtree_end, n);
    for j in 1..n {
        let p = tree.node(j).parent.expect("non-root node has a parent");
        assert!(p < j);
        assert!(tree.node(p).children.contains(&j));
    }
    for j in 0..n {
        for &c in &tree.node(j).children {
            assert_eq!(tree.node(c).parent, Some(j));
        }
    }
}

#[test]
fn unsupported_grammar_gives_no_tree() {
    assert!(foxguard::engine::parser::parse_file("puts 1", foxguard::Language::Ruby).is_none());
}

#[test]
fn file_name_drops_trailing_separators_and_dots() {
    assert!(is_noise_path("x.min.js/"));
    assert!(is_noise_path("dir/x.min.js/."));
    assert!(is_noise_path("./lib/jquery.min.js"));
    assert!(is_noise_path("./node_modules/a/i.js"));
    assert!(!is_noise_path("./src/app.js"));
    assert!(!is_noise_path("x.min.js/.."));
    assert_eq!(detect_language("src/app.py/"), Some(Language::Python));
    assert_eq!(detect_language("src/app.py/."), Some(Language::Python));
    assert_eq!(detect_language("src/.bashrc"), None);
}

#[test]
fn long_first_line_is_minified_at_any_size() {
    let source = format!("{}\n", "a".repeat(1500));
    assert!(is_minified(&source));
    let just_under = format!("{}\n", "a".repeat(1000));
    assert!(!is_minified(&just_under));
    let wide_chars = format!("{}\n", "é".repeat(1001));
    assert!(is_minified(&wide_chars));
    let no_break = "é".repeat(600);
    assert!(!is_minified(&no_break));
    let long_no_break = "a".repeat(1001);
    assert!(is_minified(&long_no_break));
}

#[test]
fn every_supported_grammar_parses() {
    for language in [
        Language::Go,
        Language::Python,
        Language::Php,
        Language::Rust,
        Language::Swift,
        Language::JavaScript,
    ] {
        assert!(foxguard::engine::parser::parse_file("x", language).is_some());
    }
    assert!(foxguard::engine::parser::parse_file("x", Language::Java).is_none());
    assert!(foxguard::engine::parser::parse_file("x", Language::CSharp).is_none());
}

#[test]
fn severity_filter_keeps_order_and_threshold() {
    let mut low = finding("a", "f", 1, 1);
    low.severity = Severity::Low;
    let mut crit = finding("b", "f", 2, 1);
    crit.severity = Severity::Critical;
    let mut med = finding("c", "f", 3, 1);
    med.severity = Severity::Medium;
    let kept = foxguard::types::filter_by_severity(vec![low, crit, med], Severity::Medium);
    let ids: Vec<&str> = kept.iter().map(|f| f.rule_id.as_str()).collect();
    assert_eq!(ids, vec!["b", "c"]);
    assert_eq!(foxguard::types::severity_rank(Severity::High), 2);
}

#[test]
fn directive_keys_are_the_target_lines() {
    let d = inline_ignore_directives("# foxguard: ignore[py/no-eval]\n\neval(input())\n", Language::Python);
    assert!(d.has_directive(3));
    assert!(!d.has_directive(1));
    assert!(!d.has_directive(2));
    assert!(d.suppresses(3, "py/no-eval"));
    assert!(!d.suppresses(3, "py/no-exec"));
}

#[test]
fn prepare_file_skips_noise_minified_and_ungrammared_files() {
    assert!(foxguard::engine::scanner::prepare_file("vendor_x/node_modules/a.py", "x = 1\n", Language::Python).is_none());
    assert!(foxguard::engine::scanner::prepare_file("src/a.py", &format!("{}\n", "a".repeat(1500)), Language::Python).is_none());
    assert!(foxguard::engine::scanner::prepare_file("src/A.java", "class A {}\n", Language::Java).is_none());
    let (tree, directives) = foxguard::engine::scanner::prepare_file("src/a.py", "eval(x)  # foxguard: ignore\n", Language::Python).expect("scanned");
    assert!(tree.len() >= 1);
    assert!(directives.suppresses(1, "py/no-eval"));
}
