//! The built-in rules as plain values: which rules the scanner runs, in
//! the order they are registered, each with its id and its language.

use vstd::prelude::*;
use crate::types::Language;

verus! {

/// One built-in rule.
#[derive(Clone, Copy, Debug, PartialEq, Eq, Structural)]
pub enum BuiltinRule {
    PyNoEval,
    PyNoHardcodedSecret,
    PyNoSqlInjection,
    PyNoCommandInjection,
    PyNoPathTraversal,
    PyNoSsrf,
    PyNoWeakCrypto,
    PyNoPickle,
    PyNoYamlLoad,
    PyNoDebugTrue,
    PyNoOpenRedirect,
    PyNoCorsStar,
    PyFlaskDebugMode,
    PyDjangoSecretKeyHardcoded,
    PyFlaskSecretKeyHardcoded,
    PySessionCookieSecureDisabled,
    PySessionCookieHttpOnlyDisabled,
    PySessionCookieSameSiteDisabled,
    PyCsrfCookieSecureDisabled,
    PyCsrfCookieHttpOnlyDisabled,
    PyCsrfCookieSameSiteDisabled,
    PyCsrfExempt,
    PyWtfCsrfDisabled,
    PyWtfCsrfCheckDefaultDisabled,
    PyDjangoAllowedHostsWildcard,
    PySecureSslRedirectDisabled,
    GoNoSqlInjection,
    GoNoCommandInjection,
    GoNoHardcodedSecret,
    GoNoWeakCrypto,
    GoNoSsrf,
    GoInsecureTlsSkipVerify,
    GoGinNoTrustedProxies,
    GoNetHttpNoTimeout,
    GoTaintCommandInjection,
    GoTaintSqlInjection,
    GoTaintSsrf,
    PhpNoEval,
    PhpNoCommandInjection,
    PhpNoSqlInjection,
    PhpNoUnserialize,
    PhpNoFileInclusion,
    PhpNoWeakCrypto,
    PhpNoHardcodedSecret,
    PhpNoSsrf,
    PhpNoExtract,
    PhpNoPregEval,
    SwiftNoHardcodedSecret,
    SwiftNoCommandInjection,
    SwiftNoWeakCrypto,
    SwiftNoInsecureTransport,
    SwiftNoEvalJs,
    SwiftNoSqlInjection,
    SwiftNoInsecureKeychain,
    SwiftNoTlsDisabled,
    SwiftNoPathTraversal,
    SwiftNoSsrf,
    RsUnsafeBlock,
    RsTransmuteUsage,
    RsNoCommandInjection,
    RsNoSqlInjection,
    RsNoWeakHash,
    RsNoHardcodedSecret,
    RsTlsVerifyDisabled,
    RsNoSsrf,
    RsNoPathTraversal,
    RsNoUnwrapInLib,
}

/// Every built-in rule, in registration order: Python, Go, PHP, Swift,
/// then Rust.
pub open spec fn builtin_catalog() -> Seq<BuiltinRule> {
    python_catalog() + go_catalog() + php_catalog() + swift_catalog() + rust_catalog()
}

/// The built-in Python rules, in registration order.
pub open spec fn python_catalog() -> Seq<BuiltinRule> {
    seq![
        BuiltinRule::PyNoEval,
        BuiltinRule::PyNoHardcodedSecret,
        BuiltinRule::PyNoSqlInjection,
        BuiltinRule::PyNoCommandInjection,
        BuiltinRule::PyNoPathTraversal,
        BuiltinRule::PyNoSsrf,
        BuiltinRule::PyNoWeakCrypto,
        BuiltinRule::PyNoPickle,
        BuiltinRule::PyNoYamlLoad,
        BuiltinRule::PyNoDebugTrue,
        BuiltinRule::PyNoOpenRedirect,
        BuiltinRule::PyNoCorsStar,
        BuiltinRule::PyFlaskDebugMode,
        BuiltinRule::PyDjangoSecretKeyHardcoded,
        BuiltinRule::PyFlaskSecretKeyHardcoded,
        BuiltinRule::PySessionCookieSecureDisabled,
        BuiltinRule::PySessionCookieHttpOnlyDisabled,
        BuiltinRule::PySessionCookieSameSiteDisabled,
        BuiltinRule::PyCsrfCookieSecureDisabled,
        BuiltinRule::PyCsrfCookieHttpOnlyDisabled,
        BuiltinRule::PyCsrfCookieSameSiteDisabled,
        BuiltinRule::PyCsrfExempt,
        BuiltinRule::PyWtfCsrfDisabled,
        BuiltinRule::PyWtfCsrfCheckDefaultDisabled,
        BuiltinRule::PyDjangoAllowedHostsWildcard,
        BuiltinRule::PySecureSslRedirectDisabled,
    ]
}

/// The built-in Go rules, in registration order.
pub open spec fn go_catalog() -> Seq<BuiltinRule> {
    seq![
        BuiltinRule::GoNoSqlInjection,
        BuiltinRule::GoNoCommandInjection,
        BuiltinRule::GoNoHardcodedSecret,
        BuiltinRule::GoNoWeakCrypto,
        BuiltinRule::GoNoSsrf,
        BuiltinRule::GoInsecureTlsSkipVerify,
        BuiltinRule::GoGinNoTrustedProxies,
        BuiltinRule::GoNetHttpNoTimeout,
        BuiltinRule::GoTaintCommandInjection,
        BuiltinRule::GoTaintSqlInjection,
        BuiltinRule::GoTaintSsrf,
    ]
}

/// The built-in PHP rules, in registration order.
pub open spec fn php_catalog() -> Seq<BuiltinRule> {
    seq![
        BuiltinRule::PhpNoEval,
        BuiltinRule::PhpNoCommandInjection,
        BuiltinRule::PhpNoSqlInjection,
        BuiltinRule::PhpNoUnserialize,
        BuiltinRule::PhpNoFileInclusion,
        BuiltinRule::PhpNoWeakCrypto,
        BuiltinRule::PhpNoHardcodedSecret,
        BuiltinRule::PhpNoSsrf,
        BuiltinRule::PhpNoExtract,
        BuiltinRule::PhpNoPregEval,
    ]
}

/// The built-in Swift rules, in registration order.
pub open spec fn swift_catalog() -> Seq<BuiltinRule> {
    seq![
        BuiltinRule::SwiftNoHardcodedSecret,
        BuiltinRule::SwiftNoCommandInjection,
        BuiltinRule::SwiftNoWeakCrypto,
        BuiltinRule::SwiftNoInsecureTransport,
        BuiltinRule::SwiftNoEvalJs,
        BuiltinRule::SwiftNoSqlInjection,
        BuiltinRule::SwiftNoInsecureKeychain,
        BuiltinRule::SwiftNoTlsDisabled,
        BuiltinRule::SwiftNoPathTraversal,
        BuiltinRule::SwiftNoSsrf,
    ]
}

/// The built-in Rust rules, in registration order.
pub open spec fn rust_catalog() -> Seq<BuiltinRule> {
    seq![
        BuiltinRule::RsUnsafeBlock,
        BuiltinRule::RsTransmuteUsage,
        BuiltinRule::RsNoCommandInjection,
        BuiltinRule::RsNoSqlInjection,
        BuiltinRule::RsNoWeakHash,
        BuiltinRule::RsNoHardcodedSecret,
        BuiltinRule::RsTlsVerifyDisabled,
        BuiltinRule::RsNoSsrf,
        BuiltinRule::RsNoPathTraversal,
        BuiltinRule::RsNoUnwrapInLib,
    ]
}

/// The id a built-in rule reports.
pub open spec fn builtin_id(r: BuiltinRule) -> Seq<char> {
    match r {
        BuiltinRule::PyNoEval => "py/no-eval"@,
        BuiltinRule::PyNoHardcodedSecret => "py/no-hardcoded-secret"@,
        BuiltinRule::PyNoSqlInjection => "py/no-sql-injection"@,
        BuiltinRule::PyNoCommandInjection => "py/no-command-injection"@,
        BuiltinRule::PyNoPathTraversal => "py/no-path-traversal"@,
        BuiltinRule::PyNoSsrf => "py/no-ssrf"@,
        BuiltinRule::PyNoWeakCrypto => "py/no-weak-crypto"@,
        BuiltinRule::PyNoPickle => "py/no-pickle"@,
        BuiltinRule::PyNoYamlLoad => "py/no-yaml-load"@,
        BuiltinRule::PyNoDebugTrue => "py/no-debug-true"@,
        BuiltinRule::PyNoOpenRedirect => "py/no-open-redirect"@,
        BuiltinRule::PyNoCorsStar => "py/no-cors-star"@,
        BuiltinRule::PyFlaskDebugMode => "py/flask-debug-mode"@,
        BuiltinRule::PyDjangoSecretKeyHardcoded => "py/django-secret-key-hardcoded"@,
        BuiltinRule::PyFlaskSecretKeyHardcoded => "py/flask-secret-key-hardcoded"@,
        BuiltinRule::PySessionCookieSecureDisabled => "py/session-cookie-secure-disabled"@,
        BuiltinRule::PySessionCookieHttpOnlyDisabled => "py/session-cookie-httponly-disabled"@,
        BuiltinRule::PySessionCookieSameSiteDisabled => "py/session-cookie-samesite-disabled"@,
        BuiltinRule::PyCsrfCookieSecureDisabled => "py/csrf-cookie-secure-disabled"@,
        BuiltinRule::PyCsrfCookieHttpOnlyDisabled => "py/csrf-cookie-httponly-disabled"@,
        BuiltinRule::PyCsrfCookieSameSiteDisabled => "py/csrf-cookie-samesite-disabled"@,
        BuiltinRule::PyCsrfExempt => "py/csrf-exempt"@,
        BuiltinRule::PyWtfCsrfDisabled => "py/wtf-csrf-disabled"@,
        BuiltinRule::PyWtfCsrfCheckDefaultDisabled => "py/wtf-csrf-check-default-disabled"@,
        BuiltinRule::PyDjangoAllowedHostsWildcard => "py/django-allowed-hosts-wildcard"@,
        BuiltinRule::PySecureSslRedirectDisabled => "py/secure-ssl-redirect-disabled"@,
        BuiltinRule::GoNoSqlInjection => "go/no-sql-injection"@,
        BuiltinRule::GoNoCommandInjection => "go/no-command-injection"@,
        BuiltinRule::GoNoHardcodedSecret => "go/no-hardcoded-secret"@,
        BuiltinRule::GoNoWeakCrypto => "go/no-weak-crypto"@,
        BuiltinRule::GoNoSsrf => "go/no-ssrf"@,
        BuiltinRule::GoInsecureTlsSkipVerify => "go/insecure-tls-skip-verify"@,
        BuiltinRule::GoGinNoTrustedProxies => "go/gin-no-trusted-proxies"@,
        BuiltinRule::GoNetHttpNoTimeout => "go/net-http-no-timeout"@,
        BuiltinRule::GoTaintCommandInjection => "go/taint-command-injection"@,
        BuiltinRule::GoTaintSqlInjection => "go/taint-sql-injection"@,
        BuiltinRule::GoTaintSsrf => "go/taint-ssrf"@,
        BuiltinRule::PhpNoEval => "php/no-eval"@,
        BuiltinRule::PhpNoCommandInjection => "php/no-command-injection"@,
        BuiltinRule::PhpNoSqlInjection => "php/no-sql-injection"@,
        BuiltinRule::PhpNoUnserialize => "php/no-unserialize"@,
        BuiltinRule::PhpNoFileInclusion => "php/no-file-inclusion"@,
        BuiltinRule::PhpNoWeakCrypto => "php/no-weak-crypto"@,
        BuiltinRule::PhpNoHardcodedSecret => "php/no-hardcoded-secret"@,
        BuiltinRule::PhpNoSsrf => "php/no-ssrf"@,
        BuiltinRule::PhpNoExtract => "php/no-extract"@,
        BuiltinRule::PhpNoPregEval => "php/no-preg-eval"@,
        BuiltinRule::SwiftNoHardcodedSecret => "swift/no-hardcoded-secret"@,
        BuiltinRule::SwiftNoCommandInjection => "swift/no-command-injection"@,
        BuiltinRule::SwiftNoWeakCrypto => "swift/no-weak-crypto"@,
        BuiltinRule::SwiftNoInsecureTransport => "swift/no-insecure-transport"@,
        BuiltinRule::SwiftNoEvalJs => "swift/no-eval-js"@,
        BuiltinRule::SwiftNoSqlInjection => "swift/no-sql-injection"@,
        BuiltinRule::SwiftNoInsecureKeychain => "swift/no-insecure-keychain"@,
        BuiltinRule::SwiftNoTlsDisabled => "swift/no-tls-disabled"@,
        BuiltinRule::SwiftNoPathTraversal => "swift/no-path-traversal"@,
        BuiltinRule::SwiftNoSsrf => "swift/no-ssrf"@,
        BuiltinRule::RsUnsafeBlock => "rs/unsafe-block"@,
        BuiltinRule::RsTransmuteUsage => "rs/transmute-usage"@,
        BuiltinRule::RsNoCommandInjection => "rs/no-command-injection"@,
        BuiltinRule::RsNoSqlInjection => "rs/no-sql-injection"@,
        BuiltinRule::RsNoWeakHash => "rs/no-weak-hash"@,
        BuiltinRule::RsNoHardcodedSecret => "rs/no-hardcoded-secret"@,
        BuiltinRule::RsTlsVerifyDisabled => "rs/tls-verify-disabled"@,
        BuiltinRule::RsNoSsrf => "rs/no-ssrf"@,
        BuiltinRule::RsNoPathTraversal => "rs/no-path-traversal"@,
        BuiltinRule::RsNoUnwrapInLib => "rs/no-unwrap-in-lib"@,
    }
}

/// The language a built-in rule checks.
pub open spec fn builtin_language(r: BuiltinRule) -> Language {
    match r {
        BuiltinRule::PyNoEval => Language::Python,
        BuiltinRule::PyNoHardcodedSecret => Language::Python,
        BuiltinRule::PyNoSqlInjection => Language::Python,
        BuiltinRule::PyNoCommandInjection => Language::Python,
        BuiltinRule::PyNoPathTraversal => Language::Python,
        BuiltinRule::PyNoSsrf => Language::Python,
        BuiltinRule::PyNoWeakCrypto => Language::Python,
        BuiltinRule::PyNoPickle => Language::Python,
        BuiltinRule::PyNoYamlLoad => Language::Python,
        BuiltinRule::PyNoDebugTrue => Language::Python,
        BuiltinRule::PyNoOpenRedirect => Language::Python,
        BuiltinRule::PyNoCorsStar => Language::Python,
        BuiltinRule::PyFlaskDebugMode => Language::Python,
        BuiltinRule::PyDjangoSecretKeyHardcoded => Language::Python,
        BuiltinRule::PyFlaskSecretKeyHardcoded => Language::Python,
        BuiltinRule::PySessionCookieSecureDisabled => Language::Python,
        BuiltinRule::PySessionCookieHttpOnlyDisabled => Language::Python,
        BuiltinRule::PySessionCookieSameSiteDisabled => Language::Python,
        BuiltinRule::PyCsrfCookieSecureDisabled => Language::Python,
        BuiltinRule::PyCsrfCookieHttpOnlyDisabled => Language::Python,
        BuiltinRule::PyCsrfCookieSameSiteDisabled => Language::Python,
        BuiltinRule::PyCsrfExempt => Language::Python,
        BuiltinRule::PyWtfCsrfDisabled => Language::Python,
        BuiltinRule::PyWtfCsrfCheckDefaultDisabled => Language::Python,
        BuiltinRule::PyDjangoAllowedHostsWildcard => Language::Python,
        BuiltinRule::PySecureSslRedirectDisabled => Language::Python,
        BuiltinRule::GoNoSqlInjection => Language::Go,
        BuiltinRule::GoNoCommandInjection => Language::Go,
        BuiltinRule::GoNoHardcodedSecret => Language::Go,
        BuiltinRule::GoNoWeakCrypto => Language::Go,
        BuiltinRule::GoNoSsrf => Language::Go,
        BuiltinRule::GoInsecureTlsSkipVerify => Language::Go,
        BuiltinRule::GoGinNoTrustedProxies => Language::Go,
        BuiltinRule::GoNetHttpNoTimeout => Language::Go,
        BuiltinRule::GoTaintCommandInjection => Language::Go,
        BuiltinRule::GoTaintSqlInjection => Language::Go,
        BuiltinRule::GoTaintSsrf => Language::Go,
        BuiltinRule::PhpNoEval => Language::Php,
        BuiltinRule::PhpNoCommandInjection => Language::Php,
        BuiltinRule::PhpNoSqlInjection => Language::Php,
        BuiltinRule::PhpNoUnserialize => Language::Php,
        BuiltinRule::PhpNoFileInclusion => Language::Php,
        BuiltinRule::PhpNoWeakCrypto => Language::Php,
        BuiltinRule::PhpNoHardcodedSecret => Language::Php,
        BuiltinRule::PhpNoSsrf => Language::Php,
        BuiltinRule::PhpNoExtract => Language::Php,
        BuiltinRule::PhpNoPregEval => Language::Php,
        BuiltinRule::SwiftNoHardcodedSecret => Language::Swift,
        BuiltinRule::SwiftNoCommandInjection => Language::Swift,
        BuiltinRule::SwiftNoWeakCrypto => Language::Swift,
        BuiltinRule::SwiftNoInsecureTransport => Language::Swift,
        BuiltinRule::SwiftNoEvalJs => Language::Swift,
        BuiltinRule::SwiftNoSqlInjection => Language::Swift,
        BuiltinRule::SwiftNoInsecureKeychain => Language::Swift,
        BuiltinRule::SwiftNoTlsDisabled => Language::Swift,
        BuiltinRule::SwiftNoPathTraversal => Language::Swift,
        BuiltinRule::SwiftNoSsrf => Language::Swift,
        BuiltinRule::RsUnsafeBlock => Language::Rust,
        BuiltinRule::RsTransmuteUsage => Language::Rust,
        BuiltinRule::RsNoCommandInjection => Language::Rust,
        BuiltinRule::RsNoSqlInjection => Language::Rust,
        BuiltinRule::RsNoWeakHash => Language::Rust,
        BuiltinRule::RsNoHardcodedSecret => Language::Rust,
        BuiltinRule::RsTlsVerifyDisabled => Language::Rust,
        BuiltinRule::RsNoSsrf => Language::Rust,
        BuiltinRule::RsNoPathTraversal => Language::Rust,
        BuiltinRule::RsNoUnwrapInLib => Language::Rust,
    }
}

fn python_rules() -> (res: Vec<BuiltinRule>)
    ensures
        res@ == python_catalog(),
{
    let mut v: Vec<BuiltinRule> = Vec::new();
    v.push(BuiltinRule::PyNoEval);
    v.push(BuiltinRule::PyNoHardcodedSecret);
    v.push(BuiltinRule::PyNoSqlInjection);
    v.push(BuiltinRule::PyNoCommandInjection);
    v.push(BuiltinRule::PyNoPathTraversal);
    v.push(BuiltinRule::PyNoSsrf);
    v.push(BuiltinRule::PyNoWeakCrypto);
    v.push(BuiltinRule::PyNoPickle);
    v.push(BuiltinRule::PyNoYamlLoad);
    v.push(BuiltinRule::PyNoDebugTrue);
    v.push(BuiltinRule::PyNoOpenRedirect);
    v.push(BuiltinRule::PyNoCorsStar);
    v.push(BuiltinRule::PyFlaskDebugMode);
    v.push(BuiltinRule::PyDjangoSecretKeyHardcoded);
    v.push(BuiltinRule::PyFlaskSecretKeyHardcoded);
    v.push(BuiltinRule::PySessionCookieSecureDisabled);
    v.push(BuiltinRule::PySessionCookieHttpOnlyDisabled);
    v.push(BuiltinRule::PySessionCookieSameSiteDisabled);
    v.push(BuiltinRule::PyCsrfCookieSecureDisabled);
    v.push(BuiltinRule::PyCsrfCookieHttpOnlyDisabled);
    v.push(BuiltinRule::PyCsrfCookieSameSiteDisabled);
    v.push(BuiltinRule::PyCsrfExempt);
    v.push(BuiltinRule::PyWtfCsrfDisabled);
    v.push(BuiltinRule::PyWtfCsrfCheckDefaultDisabled);
    v.push(BuiltinRule::PyDjangoAllowedHostsWildcard);
    v.push(BuiltinRule::PySecureSslRedirectDisabled);
    assert(v@ =~= python_catalog());
    v
}

fn go_rules() -> (res: Vec<BuiltinRule>)
    ensures
        res@ == go_catalog(),
{
    let mut v: Vec<BuiltinRule> = Vec::new();
    v.push(BuiltinRule::GoNoSqlInjection);
    v.push(BuiltinRule::GoNoCommandInjection);
    v.push(BuiltinRule::GoNoHardcodedSecret);
    v.push(BuiltinRule::GoNoWeakCrypto);
    v.push(BuiltinRule::GoNoSsrf);
    v.push(BuiltinRule::GoInsecureTlsSkipVerify);
    v.push(BuiltinRule::GoGinNoTrustedProxies);
    v.push(BuiltinRule::GoNetHttpNoTimeout);
    v.push(BuiltinRule::GoTaintCommandInjection);
    v.push(BuiltinRule::GoTaintSqlInjection);
    v.push(BuiltinRule::GoTaintSsrf);
    assert(v@ =~= go_catalog());
    v
}

fn php_rules() -> (res: Vec<BuiltinRule>)
    ensures
        res@ == php_catalog(),
{
    let mut v: Vec<BuiltinRule> = Vec::new();
    v.push(BuiltinRule::PhpNoEval);
    v.push(BuiltinRule::PhpNoCommandInjection);
    v.push(BuiltinRule::PhpNoSqlInjection);
    v.push(BuiltinRule::PhpNoUnserialize);
    v.push(BuiltinRule::PhpNoFileInclusion);
    v.push(BuiltinRule::PhpNoWeakCrypto);
    v.push(BuiltinRule::PhpNoHardcodedSecret);
    v.push(BuiltinRule::PhpNoSsrf);
    v.push(BuiltinRule::PhpNoExtract);
    v.push(BuiltinRule::PhpNoPregEval);
    assert(v@ =~= php_catalog());
    v
}

fn swift_rules() -> (res: Vec<BuiltinRule>)
    ensures
        res@ == swift_catalog(),
{
    let mut v: Vec<BuiltinRule> = Vec::new();
    v.push(BuiltinRule::SwiftNoHardcodedSecret);
    v.push(BuiltinRule::SwiftNoCommandInjection);
    v.push(BuiltinRule::SwiftNoWeakCrypto);
    v.push(BuiltinRule::SwiftNoInsecureTransport);
    v.push(BuiltinRule::SwiftNoEvalJs);
    v.push(BuiltinRule::SwiftNoSqlInjection);
    v.push(BuiltinRule::SwiftNoInsecureKeychain);
    v.push(BuiltinRule::SwiftNoTlsDisabled);
    v.push(BuiltinRule::SwiftNoPathTraversal);
    v.push(BuiltinRule::SwiftNoSsrf);
    assert(v@ =~= swift_catalog());
    v
}

fn rust_rules() -> (res: Vec<BuiltinRule>)
    ensures
        res@ == rust_catalog(),
{
    let mut v: Vec<BuiltinRule> = Vec::new();
    v.push(BuiltinRule::RsUnsafeBlock);
    v.push(BuiltinRule::RsTransmuteUsage);
    v.push(BuiltinRule::RsNoCommandInjection);
    v.push(BuiltinRule::RsNoSqlInjection);
    v.push(BuiltinRule::RsNoWeakHash);
    v.push(BuiltinRule::RsNoHardcodedSecret);
    v.push(BuiltinRule::RsTlsVerifyDisabled);
    v.push(BuiltinRule::RsNoSsrf);
    v.push(BuiltinRule::RsNoPathTraversal);
    v.push(BuiltinRule::RsNoUnwrapInLib);
    assert(v@ =~= rust_catalog());
    v
}

/// Every built-in rule, in registration order.
pub fn builtin_rules() -> (res: Vec<BuiltinRule>)
    ensures
        res@ == builtin_catalog(),
{
    let mut v = python_rules();
    let mut g = go_rules();
    v.append(&mut g);
    let mut p = php_rules();
    v.append(&mut p);
    let mut w = swift_rules();
    v.append(&mut w);
    let mut r = rust_rules();
    v.append(&mut r);
    v
}

impl BuiltinRule {
    /// The id the rule reports.
    pub fn id(&self) -> (res: &'static str)
        ensures
            res@ == builtin_id(*self),
    {
        match self {
            BuiltinRule::PyNoEval => "py/no-eval",
            BuiltinRule::PyNoHardcodedSecret => "py/no-hardcoded-secret",
            BuiltinRule::PyNoSqlInjection => "py/no-sql-injection",
            BuiltinRule::PyNoCommandInjection => "py/no-command-injection",
            BuiltinRule::PyNoPathTraversal => "py/no-path-traversal",
            BuiltinRule::PyNoSsrf => "py/no-ssrf",
            BuiltinRule::PyNoWeakCrypto => "py/no-weak-crypto",
            BuiltinRule::PyNoPickle => "py/no-pickle",
            BuiltinRule::PyNoYamlLoad => "py/no-yaml-load",
            BuiltinRule::PyNoDebugTrue => "py/no-debug-true",
            BuiltinRule::PyNoOpenRedirect => "py/no-open-redirect",
            BuiltinRule::PyNoCorsStar => "py/no-cors-star",
            BuiltinRule::PyFlaskDebugMode => "py/flask-debug-mode",
            BuiltinRule::PyDjangoSecretKeyHardcoded => "py/django-secret-key-hardcoded",
            BuiltinRule::PyFlaskSecretKeyHardcoded => "py/flask-secret-key-hardcoded",
            BuiltinRule::PySessionCookieSecureDisabled => "py/session-cookie-secure-disabled",
            BuiltinRule::PySessionCookieHttpOnlyDisabled => "py/session-cookie-httponly-disabled",
            BuiltinRule::PySessionCookieSameSiteDisabled => "py/session-cookie-samesite-disabled",
            BuiltinRule::PyCsrfCookieSecureDisabled => "py/csrf-cookie-secure-disabled",
            BuiltinRule::PyCsrfCookieHttpOnlyDisabled => "py/csrf-cookie-httponly-disabled",
            BuiltinRule::PyCsrfCookieSameSiteDisabled => "py/csrf-cookie-samesite-disabled",
            BuiltinRule::PyCsrfExempt => "py/csrf-exempt",
            BuiltinRule::PyWtfCsrfDisabled => "py/wtf-csrf-disabled",
            BuiltinRule::PyWtfCsrfCheckDefaultDisabled => "py/wtf-csrf-check-default-disabled",
            BuiltinRule::PyDjangoAllowedHostsWildcard => "py/django-allowed-hosts-wildcard",
            BuiltinRule::PySecureSslRedirectDisabled => "py/secure-ssl-redirect-disabled",
            BuiltinRule::GoNoSqlInjection => "go/no-sql-injection",
            BuiltinRule::GoNoCommandInjection => "go/no-command-injection",
            BuiltinRule::GoNoHardcodedSecret => "go/no-hardcoded-secret",
            BuiltinRule::GoNoWeakCrypto => "go/no-weak-crypto",
            BuiltinRule::GoNoSsrf => "go/no-ssrf",
            BuiltinRule::GoInsecureTlsSkipVerify => "go/insecure-tls-skip-verify",
            BuiltinRule::GoGinNoTrustedProxies => "go/gin-no-trusted-proxies",
            BuiltinRule::GoNetHttpNoTimeout => "go/net-http-no-timeout",
            BuiltinRule::GoTaintCommandInjection => "go/taint-command-injection",
            BuiltinRule::GoTaintSqlInjection => "go/taint-sql-injection",
            BuiltinRule::GoTaintSsrf => "go/taint-ssrf",
            BuiltinRule::PhpNoEval => "php/no-eval",
            BuiltinRule::PhpNoCommandInjection => "php/no-command-injection",
            BuiltinRule::PhpNoSqlInjection => "php/no-sql-injection",
            BuiltinRule::PhpNoUnserialize => "php/no-unserialize",
            BuiltinRule::PhpNoFileInclusion => "php/no-file-inclusion",
            BuiltinRule::PhpNoWeakCrypto => "php/no-weak-crypto",
            BuiltinRule::PhpNoHardcodedSecret => "php/no-hardcoded-secret",
            BuiltinRule::PhpNoSsrf => "php/no-ssrf",
            BuiltinRule::PhpNoExtract => "php/no-extract",
            BuiltinRule::PhpNoPregEval => "php/no-preg-eval",
            BuiltinRule::SwiftNoHardcodedSecret => "swift/no-hardcoded-secret",
            BuiltinRule::SwiftNoCommandInjection => "swift/no-command-injection",
            BuiltinRule::SwiftNoWeakCrypto => "swift/no-weak-crypto",
            BuiltinRule::SwiftNoInsecureTransport => "swift/no-insecure-transport",
            BuiltinRule::SwiftNoEvalJs => "swift/no-eval-js",
            BuiltinRule::SwiftNoSqlInjection => "swift/no-sql-injection",
            BuiltinRule::SwiftNoInsecureKeychain => "swift/no-insecure-keychain",
            BuiltinRule::SwiftNoTlsDisabled => "swift/no-tls-disabled",
            BuiltinRule::SwiftNoPathTraversal => "swift/no-path-traversal",
            BuiltinRule::SwiftNoSsrf => "swift/no-ssrf",
            BuiltinRule::RsUnsafeBlock => "rs/unsafe-block",
            BuiltinRule::RsTransmuteUsage => "rs/transmute-usage",
            BuiltinRule::RsNoCommandInjection => "rs/no-command-injection",
            BuiltinRule::RsNoSqlInjection => "rs/no-sql-injection",
            BuiltinRule::RsNoWeakHash => "rs/no-weak-hash",
            BuiltinRule::RsNoHardcodedSecret => "rs/no-hardcoded-secret",
            BuiltinRule::RsTlsVerifyDisabled => "rs/tls-verify-disabled",
            BuiltinRule::RsNoSsrf => "rs/no-ssrf",
            BuiltinRule::RsNoPathTraversal => "rs/no-path-traversal",
            BuiltinRule::RsNoUnwrapInLib => "rs/no-unwrap-in-lib",
        }
    }

    /// The language the rule checks.
    pub fn language(&self) -> (res: Language)
        ensures
            res == builtin_language(*self),
    {
        match self {
            BuiltinRule::PyNoEval => Language::Python,
            BuiltinRule::PyNoHardcodedSecret => Language::Python,
            BuiltinRule::PyNoSqlInjection => Language::Python,
            BuiltinRule::PyNoCommandInjection => Language::Python,
            BuiltinRule::PyNoPathTraversal => Language::Python,
            BuiltinRule::PyNoSsrf => Language::Python,
            BuiltinRule::PyNoWeakCrypto => Language::Python,
            BuiltinRule::PyNoPickle => Language::Python,
            BuiltinRule::PyNoYamlLoad => Language::Python,
            BuiltinRule::PyNoDebugTrue => Language::Python,
            BuiltinRule::PyNoOpenRedirect => Language::Python,
            BuiltinRule::PyNoCorsStar => Language::Python,
            BuiltinRule::PyFlaskDebugMode => Language::Python,
            BuiltinRule::PyDjangoSecretKeyHardcoded => Language::Python,
            BuiltinRule::PyFlaskSecretKeyHardcoded => Language::Python,
            BuiltinRule::PySessionCookieSecureDisabled => Language::Python,
            BuiltinRule::PySessionCookieHttpOnlyDisabled => Language::Python,
            BuiltinRule::PySessionCookieSameSiteDisabled => Language::Python,
            BuiltinRule::PyCsrfCookieSecureDisabled => Language::Python,
            BuiltinRule::PyCsrfCookieHttpOnlyDisabled => Language::Python,
            BuiltinRule::PyCsrfCookieSameSiteDisabled => Language::Python,
            BuiltinRule::PyCsrfExempt => Language::Python,
            BuiltinRule::PyWtfCsrfDisabled => Language::Python,
            BuiltinRule::PyWtfCsrfCheckDefaultDisabled => Language::Python,
            BuiltinRule::PyDjangoAllowedHostsWildcard => Language::Python,
            BuiltinRule::PySecureSslRedirectDisabled => Language::Python,
            BuiltinRule::GoNoSqlInjection => Language::Go,
            BuiltinRule::GoNoCommandInjection => Language::Go,
            BuiltinRule::GoNoHardcodedSecret => Language::Go,
            BuiltinRule::GoNoWeakCrypto => Language::Go,
            BuiltinRule::GoNoSsrf => Language::Go,
            BuiltinRule::GoInsecureTlsSkipVerify => Language::Go,
            BuiltinRule::GoGinNoTrustedProxies => Language::Go,
            BuiltinRule::GoNetHttpNoTimeout => Language::Go,
            BuiltinRule::GoTaintCommandInjection => Language::Go,
            BuiltinRule::GoTaintSqlInjection => Language::Go,
            BuiltinRule::GoTaintSsrf => Language::Go,
            BuiltinRule::PhpNoEval => Language::Php,
            BuiltinRule::PhpNoCommandInjection => Language::Php,
            BuiltinRule::PhpNoSqlInjection => Language::Php,
            BuiltinRule::PhpNoUnserialize => Language::Php,
            BuiltinRule::PhpNoFileInclusion => Language::Php,
            BuiltinRule::PhpNoWeakCrypto => Language::Php,
            BuiltinRule::PhpNoHardcodedSecret => Language::Php,
            BuiltinRule::PhpNoSsrf => Language::Php,
            BuiltinRule::PhpNoExtract => Language::Php,
            BuiltinRule::PhpNoPregEval => Language::Php,
            BuiltinRule::SwiftNoHardcodedSecret => Language::Swift,
            BuiltinRule::SwiftNoCommandInjection => Language::Swift,
            BuiltinRule::SwiftNoWeakCrypto => Language::Swift,
            BuiltinRule::SwiftNoInsecureTransport => Language::Swift,
            BuiltinRule::SwiftNoEvalJs => Language::Swift,
            BuiltinRule::SwiftNoSqlInjection => Language::Swift,
            BuiltinRule::SwiftNoInsecureKeychain => Language::Swift,
            BuiltinRule::SwiftNoTlsDisabled => Language::Swift,
            BuiltinRule::SwiftNoPathTraversal => Language::Swift,
            BuiltinRule::SwiftNoSsrf => Language::Swift,
            BuiltinRule::RsUnsafeBlock => Language::Rust,
            BuiltinRule::RsTransmuteUsage => Language::Rust,
            BuiltinRule::RsNoCommandInjection => Language::Rust,
            BuiltinRule::RsNoSqlInjection => Language::Rust,
            BuiltinRule::RsNoWeakHash => Language::Rust,
            BuiltinRule::RsNoHardcodedSecret => Language::Rust,
            BuiltinRule::RsTlsVerifyDisabled => Language::Rust,
            BuiltinRule::RsNoSsrf => Language::Rust,
            BuiltinRule::RsNoPathTraversal => Language::Rust,
            BuiltinRule::RsNoUnwrapInLib => Language::Rust,
        }
    }
}

/// Whether a built-in rule checks `language`.
pub open spec fn of_language(language: Language) -> spec_fn(BuiltinRule) -> bool {
    |r: BuiltinRule| builtin_language(r) == language
}

/// The rules among `all` that check `language`, in their order.
pub fn rules_for_language(all: &[BuiltinRule], language: Language) -> (res: Vec<BuiltinRule>)
    ensures
        res@ == all@.filter(of_language(language)),
{
    let mut out: Vec<BuiltinRule> = Vec::new();
    let mut k: usize = 0;
    while k < all.len()
        invariant
            k <= all@.len(),
            out@ == all@.subrange(0, k as int).filter(of_language(language)),
        decreases all@.len() - k,
    {
        proof {
            reveal(Seq::filter);
            assert(all@.subrange(0, k + 1).drop_last() =~= all@.subrange(0, k as int));
            assert(all@.subrange(0, k + 1).last() == all@[k as int]);
        }
        if all[k].language() == language {
            out.push(all[k]);
        }
        k = k + 1;
    }
    assert(all@.subrange(0, all@.len() as int) =~= all@);
    out
}

/// Filtering a table whose rules all check `language` keeps it whole;
/// filtering one whose rules check none of it leaves nothing.
proof fn lemma_filter_table(s: Seq<BuiltinRule>, language: Language, keep: bool)
    requires
        forall|i: int| 0 <= i < s.len() ==> (builtin_language(#[trigger] s[i]) == language) == keep,
    ensures
        s.filter(of_language(language)) == (if keep {
            s
        } else {
            Seq::<BuiltinRule>::empty()
        }),
    decreases s.len(),
{
    reveal(Seq::filter);
    if s.len() > 0 {
        assert forall|i: int| 0 <= i < s.drop_last().len() implies (builtin_language(
            #[trigger] s.drop_last()[i],
        ) == language) == keep by {
            assert(s.drop_last()[i] == s[i]);
        }
        lemma_filter_table(s.drop_last(), language, keep);
        assert(builtin_language(s[s.len() - 1]) == language <==> keep);
        if keep {
            assert(s.drop_last().push(s.last()) =~= s);
        }
    }
}

/// The catalog filtered for one language: the five tables filtered.
proof fn lemma_catalog_filter(language: Language)
    ensures
        builtin_catalog().filter(of_language(language)) == python_catalog().filter(of_language(language))
            + go_catalog().filter(of_language(language)) + php_catalog().filter(of_language(language))
            + swift_catalog().filter(of_language(language)) + rust_catalog().filter(of_language(language)),
{
    let f = of_language(language);
    let a = python_catalog();
    let b = go_catalog();
    let c = php_catalog();
    let d = swift_catalog();
    let e = rust_catalog();
    Seq::filter_distributes_over_add(a + b + c + d, e, f);
    Seq::filter_distributes_over_add(a + b + c, d, f);
    Seq::filter_distributes_over_add(a + b, c, f);
    Seq::filter_distributes_over_add(a, b, f);
}

proof fn lemma_tables_for(language: Language)
    ensures
        python_catalog().filter(of_language(language)) == (if language == Language::Python {
            python_catalog()
        } else {
            Seq::<BuiltinRule>::empty()
        }),
        go_catalog().filter(of_language(language)) == (if language == Language::Go {
            go_catalog()
        } else {
            Seq::<BuiltinRule>::empty()
        }),
        php_catalog().filter(of_language(language)) == (if language == Language::Php {
            php_catalog()
        } else {
            Seq::<BuiltinRule>::empty()
        }),
        swift_catalog().filter(of_language(language)) == (if language == Language::Swift {
            swift_catalog()
        } else {
            Seq::<BuiltinRule>::empty()
        }),
        rust_catalog().filter(of_language(language)) == (if language == Language::Rust {
            rust_catalog()
        } else {
            Seq::<BuiltinRule>::empty()
        }),
{
    lemma_filter_table(python_catalog(), language, language == Language::Python);
    lemma_filter_table(go_catalog(), language, language == Language::Go);
    lemma_filter_table(php_catalog(), language, language == Language::Php);
    lemma_filter_table(swift_catalog(), language, language == Language::Swift);
    lemma_filter_table(rust_catalog(), language, language == Language::Rust);
}

/// The built-in rules for a language are exactly that language's table,
/// in registration order; JavaScript, Ruby, Java and C# have none here.
pub proof fn law_rules_per_language(language: Language)
    ensures
        builtin_catalog().filter(of_language(language)) == (match language {
            Language::Python => python_catalog(),
            Language::Go => go_catalog(),
            Language::Php => php_catalog(),
            Language::Swift => swift_catalog(),
            Language::Rust => rust_catalog(),
            _ => Seq::<BuiltinRule>::empty(),
        }),
{
    lemma_catalog_filter(language);
    lemma_tables_for(language);
    let e = Seq::<BuiltinRule>::empty();
    match language {
        Language::Python => {
            assert(python_catalog() + e + e + e + e =~= python_catalog());
        },
        Language::Go => {
            assert(e + go_catalog() + e + e + e =~= go_catalog());
        },
        Language::Php => {
            assert(e + e + php_catalog() + e + e =~= php_catalog());
        },
        Language::Swift => {
            assert(e + e + e + swift_catalog() + e =~= swift_catalog());
        },
        Language::Rust => {
            assert(e + e + e + e + rust_catalog() =~= rust_catalog());
        },
        _ => {
            assert(e + e + e + e + e =~= e);
        },
    }
}

} // verus!
