//! Parsing source text with tree-sitter into a [`SyntaxTree`].

use vstd::prelude::*;
use crate::tree::{parsed_arena, rooted_tree, SyntaxTree, TsTree};
use crate::types::Language;

verus! {

#[verifier::external_type_specification]
#[verifier::external_body]
pub struct ExTsParser(tree_sitter::Parser);

/// A tree-sitter parser, with whether a grammar has been assigned to it.
pub struct TsParser {
    parser: tree_sitter::Parser,
    language: Ghost<Option<Language>>,
}

impl TsParser {
    /// The language whose grammar has been assigned with
    /// `Parser::set_language`, if any.
    pub closed spec fn spec_language(&self) -> Option<Language> {
        self.language@
    }
}

/// `tree_sitter::Parser::new`: a parser with no grammar assigned yet.
#[verifier::external_body]
pub(crate) fn ts_new_parser() -> (res: TsParser)
    ensures
        res.spec_language() is None,
{
    TsParser { parser: tree_sitter::Parser::new(), language: Ghost(None) }
}

/// `tree_sitter::Parser::parse` on the whole text, with no previous tree.
/// Its documentation gives `None` only for a parser with no grammar
/// assigned (no timeout or cancellation is set here); the tree it builds
/// is not described.
#[verifier::external_body]
pub(crate) fn ts_parse(parser: &mut TsParser, source: &str) -> (res: Option<TsTree>)
    ensures
        old(parser).spec_language() is Some ==> res is Some,
        res matches Some(t) ==> old(parser).spec_language() == Some(t.spec_language()) && t.spec_text()
            == source@,
        final(parser).spec_language() == old(parser).spec_language(),
{
    match parser.parser.parse(source, None) {
        Some(t) => Some(
            TsTree { tree: t, language: Ghost(parser.language@.unwrap()), text: Ghost(source@) },
        ),
        None => None,
    }
}

/// `Parser::set_language` with the grammar of `tree-sitter-go`. The
/// grammar version locked here has an ABI version inside tree-sitter's
/// accepted range and is parseable, so the grammar is accepted.
#[verifier::external_body]
pub(crate) fn ts_use_go_grammar(parser: &mut TsParser) -> (res: bool)
    ensures
        res,
        final(parser).spec_language() == Some(Language::Go),
{
    let ok = parser.parser.set_language(&tree_sitter_go::LANGUAGE.into()).is_ok();
    parser.language = Ghost(if ok { Some(Language::Go) } else { None });
    ok
}

/// `Parser::set_language` with the grammar of `tree-sitter-python`,
/// accepted as for Go.
#[verifier::external_body]
pub(crate) fn ts_use_python_grammar(parser: &mut TsParser) -> (res: bool)
    ensures
        res,
        final(parser).spec_language() == Some(Language::Python),
{
    let ok = parser.parser.set_language(&tree_sitter_python::LANGUAGE.into()).is_ok();
    parser.language = Ghost(if ok { Some(Language::Python) } else { None });
    ok
}

/// `Parser::set_language` with the PHP grammar (with `<?php` tags) of
/// `tree-sitter-php`, accepted as for Go.
#[verifier::external_body]
pub(crate) fn ts_use_php_grammar(parser: &mut TsParser) -> (res: bool)
    ensures
        res,
        final(parser).spec_language() == Some(Language::Php),
{
    let ok = parser.parser.set_language(&tree_sitter_php::LANGUAGE_PHP.into()).is_ok();
    parser.language = Ghost(if ok { Some(Language::Php) } else { None });
    ok
}

/// `Parser::set_language` with the grammar of `tree-sitter-rust`,
/// accepted as for Go.
#[verifier::external_body]
pub(crate) fn ts_use_rust_grammar(parser: &mut TsParser) -> (res: bool)
    ensures
        res,
        final(parser).spec_language() == Some(Language::Rust),
{
    let ok = parser.parser.set_language(&tree_sitter_rust::LANGUAGE.into()).is_ok();
    parser.language = Ghost(if ok { Some(Language::Rust) } else { None });
    ok
}

/// `Parser::set_language` with the grammar of `tree-sitter-swift`,
/// accepted as for Go.
#[verifier::external_body]
pub(crate) fn ts_use_swift_grammar(parser: &mut TsParser) -> (res: bool)
    ensures
        res,
        final(parser).spec_language() == Some(Language::Swift),
{
    let ok = parser.parser.set_language(&tree_sitter_swift::LANGUAGE.into()).is_ok();
    parser.language = Ghost(if ok { Some(Language::Swift) } else { None });
    ok
}

/// `Parser::set_language` with the grammar of `tree-sitter-javascript`
/// (which also reads TypeScript files well enough for the rules),
/// accepted as for Go.
#[verifier::external_body]
pub(crate) fn ts_use_javascript_grammar(parser: &mut TsParser) -> (res: bool)
    ensures
        res,
        final(parser).spec_language() == Some(Language::JavaScript),
{
    let ok = parser.parser.set_language(&tree_sitter_javascript::LANGUAGE.into()).is_ok();
    parser.language = Ghost(if ok { Some(Language::JavaScript) } else { None });
    ok
}

/// Parses `source` with the grammar for `language`.
///
/// `None` exactly when no grammar for the language is available here
/// (Ruby, Java and C#). Otherwise the arena holds the parse of the text
/// with that grammar, node for node in pre-order (`parsed_arena`), over
/// names for what tree-sitter reports of the node at each path of child
/// indices; it is one well-formed tree rooted at node 0.
pub fn parse_file(source: &str, language: Language) -> (res: Option<SyntaxTree>)
    ensures
        res is None <==> (language == Language::Ruby || language == Language::Java || language
            == Language::CSharp),
        res matches Some(t) ==> rooted_tree(t@) && parsed_arena(t@, language, source@),
{
    let mut parser = ts_new_parser();
    let accepted = match language {
        Language::Go => ts_use_go_grammar(&mut parser),
        Language::Python => ts_use_python_grammar(&mut parser),
        Language::Php => ts_use_php_grammar(&mut parser),
        Language::Rust => ts_use_rust_grammar(&mut parser),
        Language::Swift => ts_use_swift_grammar(&mut parser),
        Language::JavaScript => ts_use_javascript_grammar(&mut parser),
        Language::Ruby | Language::Java | Language::CSharp => false,
    };
    if !accepted {
        return None;
    }
    match ts_parse(&mut parser, source) {
        Some(tree) => Some(SyntaxTree::from_ts_tree(&tree)),
        None => None,
    }
}

} // verus!
