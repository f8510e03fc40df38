//! Security rules: the [`Rule`] interface, the per-file context handed to
//! rules, and the rules of each language.

pub mod common;
pub mod name_log;
pub mod go_taint;
pub mod go_sanitizer_law;
pub mod go;
pub mod javascript_taint;
pub mod semgrep_taint;
pub mod yaml_value;
pub mod semgrep_compat;
pub mod semgrep_rule;
pub mod rust_lang;
pub mod php;
pub mod swift;
pub mod python;
pub mod builtin;

use vstd::prelude::*;
use crate::tree::SyntaxTree;
use crate::types::{Finding, Language, Severity};

verus! {

/// Per-file analysis context shared across all rules running on a single
/// file: the import alias tables built once after parsing.
pub struct FileContext<'a> {
    /// JavaScript / TypeScript import alias table. `None` for other files.
    pub javascript_aliases: Option<&'a javascript_taint::JsImportAliases>,
    /// Go import alias table. `None` for non-Go files.
    pub go_aliases: Option<&'a go_taint::GoImportAliases>,
}

impl<'a> FileContext<'a> {
    /// A context with no alias tables.
    pub fn empty() -> (res: FileContext<'a>)
        ensures
            res.javascript_aliases is None,
            res.go_aliases is None,
    {
        FileContext { javascript_aliases: None, go_aliases: None }
    }
}

impl<'a> Default for FileContext<'a> {
    /// A context with no alias tables.
    fn default() -> (res: FileContext<'a>)
        ensures
            res.javascript_aliases is None,
            res.go_aliases is None,
    {
        FileContext::empty()
    }
}

/// A security rule that checks parsed source code for vulnerabilities.
pub trait Rule: Send + Sync {
    fn id(&self) -> &str;

    fn severity(&self) -> Severity;

    fn cwe(&self) -> Option<&str>;

    fn description(&self) -> &str;

    fn language(&self) -> Language;

    /// Whether the rule runs on the file at this path (relative to the
    /// scan root). All rules run everywhere unless they say otherwise.
    fn applies_to_path(&self, path: &str) -> bool {
        true
    }

    fn check(&self, source: &str, tree: &SyntaxTree) -> Vec<Finding>;

    /// Context-aware variant; by default the same as [`Rule::check`].
    fn check_with_context(&self, source: &str, tree: &SyntaxTree, ctx: &FileContext<'_>) -> Vec<
        Finding,
    > {
        self.check(source, tree)
    }
}

} // verus!
