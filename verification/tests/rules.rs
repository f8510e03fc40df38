use foxguard::engine::parser::parse_file;
use foxguard::rules::{go, php, python, rust_lang, swift, Rule};
use foxguard::{Finding, Language, Severity};

fn run(rule: &dyn Rule, source: &str, language: Language) -> Vec<Finding> {
    let tree = parse_file(source, language).expect("parse");
    rule.check(source, &tree)
}

#[test]
fn python_eval_and_exec() {
    let f = run(&python::NoEval, "x = eval(data)\nexec(code)\nprint(1)\n", Language::Python);
    assert_eq!(f.len(), 2);
    assert_eq!(f[0].line, 1);
    assert_eq!(f[0].rule_id, "py/no-eval");
    assert_eq!(f[0].severity, Severity::Critical);
    assert_eq!(f[0].cwe.as_deref(), Some("CWE-95"));
    assert!(f[0].description.starts_with("eval() allows arbitrary code execution"));
    assert_eq!(f[1].line, 2);
    assert!(f[1].description.starts_with("exec()"));
}

#[test]
fn python_debug_true() {
    let f = run(&python::NoDebugTrue, "DEBUG = True\nDEBUG = False\n", Language::Python);
    assert_eq!(f.len(), 1);
    assert_eq!(f[0].line, 1);
    assert_eq!(f[0].column, 1);
    assert_eq!(f[0].snippet, "DEBUG = True");
}

#[test]
fn php_eval() {
    let f = run(&php::NoEval, "<?php\neval($code);\nfoo($x);\n", Language::Php);
    assert_eq!(f.len(), 1);
    assert_eq!(f[0].line, 2);
    assert_eq!(f[0].rule_id, php::NoEval.id());
}

#[test]
fn go_insecure_tls() {
    let src = "package main\n\nvar c = tls.Config{InsecureSkipVerify: true}\n";
    let f = run(&go::InsecureTlsSkipVerify, src, Language::Go);
    assert_eq!(f.len(), 1);
    assert_eq!(f[0].line, 3);
    assert_eq!(f[0].column, 20);
}

#[test]
fn rust_unsafe_block() {
    let f = run(&rust_lang::UnsafeBlock, "fn main() {\n    unsafe { foo(); }\n}\n", Language::Rust);
    assert_eq!(f.len(), 1);
    assert_eq!(f[0].line, 2);
    assert_eq!(f[0].column, 5);
    assert_eq!(f[0].rule_id, "rs/unsafe-block");
}

#[test]
fn rust_transmute() {
    let src = "fn f() {\n    let y = std::mem::transmute::<u32, f32>(1);\n}\n";
    let f = run(&rust_lang::TransmuteUsage, src, Language::Rust);
    assert_eq!(f.len(), 1);
    assert_eq!(f[0].line, 2);
}

#[test]
fn rust_command_literal_is_fine() {
    let src = "fn f(c: &str) {\n    Command::new(\"ls\");\n    Command::new(c);\n}\n";
    let f = run(&rust_lang::NoCommandInjection, src, Language::Rust);
    assert_eq!(f.len(), 1);
    assert_eq!(f[0].line, 3);
}

#[test]
fn rules_name_their_language() {
    assert_eq!(swift::NoWeakCrypto.language(), Language::Swift);
    assert_eq!(go::TaintSqlInjection.language(), Language::Go);
    assert_eq!(rust_lang::NoUnwrapInLib.language(), Language::Rust);
    assert_eq!(php::NoUnserialize.language(), Language::Php);
}

#[test]
fn go_sql_concatenation_and_sprintf() {
    let src = "package main\n\nfunc f(id string) {\n    q := \"SELECT name FROM users WHERE id = \" + id\n    r := fmt.Sprintf(\"DELETE FROM t WHERE id = %s\", id)\n    s := \"hello \" + id\n    _ = fmt.Sprintf(\"%s\", id)\n}\n";
    let f = run(&go::NoSqlInjection, src, Language::Go);
    assert_eq!(f.len(), 2);
    assert_eq!(f[0].line, 4);
    assert!(f[0].description.contains("string concatenation"));
    assert_eq!(f[1].line, 5);
    assert!(f[1].description.contains("fmt.Sprintf"));
}

#[test]
fn python_cors_star() {
    let src = "CORS_ALLOW_ALL_ORIGINS = True\nresponse.headers.set_header(\"Access-Control-Allow-Origin\", \"*\")\napp.add_middleware(CORSMiddleware, allow_origins=[\"*\"])\nCORS_ALLOW_ALL_ORIGINS = False\n";
    let f = run(&python::NoCorsStar, src, Language::Python);
    assert_eq!(f.len(), 3);
    assert_eq!(f[0].description, "CORS_ALLOW_ALL_ORIGINS = True — restrict CORS to specific origins");
    assert_eq!(f[1].line, 2);
    assert_eq!(f[2].line, 3);
    assert!(f[2].description.starts_with("CORS allow_origins includes"));
}

#[test]
fn python_flask_debug_mode() {
    let src = "app.run(debug=True)\napp.run(debug=False)\napp.debug = True\nrun(debug=True)\n";
    let f = run(&python::FlaskDebugMode, src, Language::Python);
    assert_eq!(f.len(), 2);
    assert_eq!(f[0].line, 1);
    assert_eq!(f[1].line, 3);
}

#[test]
fn go_taint_rule_reports_flow() {
    let src = "package main\n\nimport \"os/exec\"\n\nfunc h(c *gin.Context) {\n    exec.Command(c.Query(\"x\"))\n}\n";
    let f = run(&go::TaintCommandInjection, src, Language::Go);
    assert_eq!(f.len(), 1);
    assert_eq!(f[0].line, 6);
    assert_eq!(f[0].rule_id, go::TaintCommandInjection.id());
}
