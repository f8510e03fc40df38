use foxguard::rules::builtin::{builtin_rules, rules_for_language, BuiltinRule};
use foxguard::rules::{go, php, python, rust_lang, swift, Rule};
use foxguard::Language;

fn implementation(rule: BuiltinRule) -> Box<dyn Rule> {
    match rule {
        BuiltinRule::PyNoEval => Box::new(python::NoEval),
        BuiltinRule::PyNoHardcodedSecret => Box::new(python::NoHardcodedSecret),
        BuiltinRule::PyNoSqlInjection => Box::new(python::NoSqlInjection),
        BuiltinRule::PyNoCommandInjection => Box::new(python::NoCommandInjection),
        BuiltinRule::PyNoPathTraversal => Box::new(python::NoPathTraversal),
        BuiltinRule::PyNoSsrf => Box::new(python::NoSsrf),
        BuiltinRule::PyNoWeakCrypto => Box::new(python::NoWeakCrypto),
        BuiltinRule::PyNoPickle => Box::new(python::NoPickle),
        BuiltinRule::PyNoYamlLoad => Box::new(python::NoYamlLoad),
        BuiltinRule::PyNoDebugTrue => Box::new(python::NoDebugTrue),
        BuiltinRule::PyNoOpenRedirect => Box::new(python::NoOpenRedirect),
        BuiltinRule::PyNoCorsStar => Box::new(python::NoCorsStar),
        BuiltinRule::PyFlaskDebugMode => Box::new(python::FlaskDebugMode),
        BuiltinRule::PyDjangoSecretKeyHardcoded => Box::new(python::DjangoSecretKeyHardcoded),
        BuiltinRule::PyFlaskSecretKeyHardcoded => Box::new(python::FlaskSecretKeyHardcoded),
        BuiltinRule::PySessionCookieSecureDisabled => Box::new(python::SessionCookieSecureDisabled),
        BuiltinRule::PySessionCookieHttpOnlyDisabled => Box::new(python::SessionCookieHttpOnlyDisabled),
        BuiltinRule::PySessionCookieSameSiteDisabled => Box::new(python::SessionCookieSameSiteDisabled),
        BuiltinRule::PyCsrfCookieSecureDisabled => Box::new(python::CsrfCookieSecureDisabled),
        BuiltinRule::PyCsrfCookieHttpOnlyDisabled => Box::new(python::CsrfCookieHttpOnlyDisabled),
        BuiltinRule::PyCsrfCookieSameSiteDisabled => Box::new(python::CsrfCookieSameSiteDisabled),
        BuiltinRule::PyCsrfExempt => Box::new(python::CsrfExempt),
        BuiltinRule::PyWtfCsrfDisabled => Box::new(python::WtfCsrfDisabled),
        BuiltinRule::PyWtfCsrfCheckDefaultDisabled => Box::new(python::WtfCsrfCheckDefaultDisabled),
        BuiltinRule::PyDjangoAllowedHostsWildcard => Box::new(python::DjangoAllowedHostsWildcard),
        BuiltinRule::PySecureSslRedirectDisabled => Box::new(python::SecureSslRedirectDisabled),
        BuiltinRule::GoNoSqlInjection => Box::new(go::NoSqlInjection),
        BuiltinRule::GoNoCommandInjection => Box::new(go::NoCommandInjection),
        BuiltinRule::GoNoHardcodedSecret => Box::new(go::NoHardcodedSecret),
        BuiltinRule::GoNoWeakCrypto => Box::new(go::NoWeakCrypto),
        BuiltinRule::GoNoSsrf => Box::new(go::NoSsrf),
        BuiltinRule::GoInsecureTlsSkipVerify => Box::new(go::InsecureTlsSkipVerify),
        BuiltinRule::GoGinNoTrustedProxies => Box::new(go::GinNoTrustedProxies),
        BuiltinRule::GoNetHttpNoTimeout => Box::new(go::NetHttpNoTimeout),
        BuiltinRule::GoTaintCommandInjection => Box::new(go::TaintCommandInjection),
        BuiltinRule::GoTaintSqlInjection => Box::new(go::TaintSqlInjection),
        BuiltinRule::GoTaintSsrf => Box::new(go::TaintSsrf),
        BuiltinRule::PhpNoEval => Box::new(php::NoEval),
        BuiltinRule::PhpNoCommandInjection => Box::new(php::NoCommandInjection),
        BuiltinRule::PhpNoSqlInjection => Box::new(php::NoSqlInjection),
        BuiltinRule::PhpNoUnserialize => Box::new(php::NoUnserialize),
        BuiltinRule::PhpNoFileInclusion => Box::new(php::NoFileInclusion),
        BuiltinRule::PhpNoWeakCrypto => Box::new(php::NoWeakCrypto),
        BuiltinRule::PhpNoHardcodedSecret => Box::new(php::NoHardcodedSecret),
        BuiltinRule::PhpNoSsrf => Box::new(php::NoSsrf),
        BuiltinRule::PhpNoExtract => Box::new(php::NoExtract),
        BuiltinRule::PhpNoPregEval => Box::new(php::NoPregEval),
        BuiltinRule::SwiftNoHardcodedSecret => Box::new(swift::NoHardcodedSecret),
        BuiltinRule::SwiftNoCommandInjection => Box::new(swift::NoCommandInjection),
        BuiltinRule::SwiftNoWeakCrypto => Box::new(swift::NoWeakCrypto),
        BuiltinRule::SwiftNoInsecureTransport => Box::new(swift::NoInsecureTransport),
        BuiltinRule::SwiftNoEvalJs => Box::new(swift::NoEvalJs),
        BuiltinRule::SwiftNoSqlInjection => Box::new(swift::NoSqlInjection),
        BuiltinRule::SwiftNoInsecureKeychain => Box::new(swift::NoInsecureKeychain),
        BuiltinRule::SwiftNoTlsDisabled => Box::new(swift::NoTlsDisabled),
        BuiltinRule::SwiftNoPathTraversal => Box::new(swift::NoPathTraversal),
        BuiltinRule::SwiftNoSsrf => Box::new(swift::NoSsrf),
        BuiltinRule::RsUnsafeBlock => Box::new(rust_lang::UnsafeBlock),
        BuiltinRule::RsTransmuteUsage => Box::new(rust_lang::TransmuteUsage),
        BuiltinRule::RsNoCommandInjection => Box::new(rust_lang::NoCommandInjection),
        BuiltinRule::RsNoSqlInjection => Box::new(rust_lang::NoSqlInjection),
        BuiltinRule::RsNoWeakHash => Box::new(rust_lang::NoWeakHash),
        BuiltinRule::RsNoHardcodedSecret => Box::new(rust_lang::NoHardcodedSecret),
        BuiltinRule::RsTlsVerifyDisabled => Box::new(rust_lang::TlsVerifyDisabled),
        BuiltinRule::RsNoSsrf => Box::new(rust_lang::NoSsrf),
        BuiltinRule::RsNoPathTraversal => Box::new(rust_lang::NoPathTraversal),
        BuiltinRule::RsNoUnwrapInLib => Box::new(rust_lang::NoUnwrapInLib),
    }
}

#[test]
fn builtin_ids_and_languages_match_their_rules() {
    let all = builtin_rules();
    assert_eq!(all.len(), 67);
    let mut ids: Vec<&str> = Vec::new();
    for r in &all {
        let imp = implementation(*r);
        assert_eq!(r.id(), imp.id());
        assert_eq!(r.language(), imp.language());
        assert!(!ids.contains(&r.id()), "duplicate id {}", r.id());
        ids.push(r.id());
    }
}

#[test]
fn builtin_rules_per_language() {
    let all = builtin_rules();
    assert_eq!(rules_for_language(&all, Language::Python).len(), 26);
    assert_eq!(rules_for_language(&all, Language::Go).len(), 11);
    assert_eq!(rules_for_language(&all, Language::Php).len(), 10);
    assert_eq!(rules_for_language(&all, Language::Swift).len(), 10);
    assert_eq!(rules_for_language(&all, Language::Rust).len(), 10);
    assert_eq!(rules_for_language(&all, Language::JavaScript).len(), 0);
    let go_rules = rules_for_language(&all, Language::Go);
    assert_eq!(go_rules[0], BuiltinRule::GoNoSqlInjection);
    assert_eq!(go_rules[10].id(), "go/taint-ssrf");
    assert!(go_rules.iter().all(|r| r.language() == Language::Go));
}
