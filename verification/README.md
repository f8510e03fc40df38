# foxguard

Fast local security scanning: rule checks over parsed syntax trees,
intraprocedural taint tracking for Go and JavaScript/TypeScript, and a
Semgrep-compatible YAML rule bridge. The library is written in Verus. Its
own functions carry contracts that the verifier proves; the calls into
tree-sitter, `regex`, `globset` and std go through small trusted wrappers
(marked `external_body`) whose contracts are believed, not proved, and are
stated only as far as those crates' sources and documentation show.

## Layout

- `src/types.rs`: severities, languages and findings.
- `src/text.rs`: character and string helpers the rules are built from.
- `src/pattern.rs`, `src/glob.rs`: regular expressions (`regex`) and path
  globs (`globset`), behind small trusted wrappers whose answers are named.
- `src/tree.rs`: a tree-sitter parse copied into an arena of nodes in
  pre-order; `src/engine/parser.rs` picks the grammar for a language. What
  tree-sitter reports of the node at each path of child indices in the
  parse of a text with a grammar is named (`ts_node_kind`, ...), and the
  arena is proved to hold exactly those nodes in pre-order
  (`parsed_arena`), as one well-formed tree rooted at node 0.
- `src/engine/scanner.rs`: language detection, noise paths, minified
  sources, inline `foxguard: ignore` directives and the report order.
- `src/rules/`: the rule interface and the rules of each language
  (`go`, `php`, `python`, `rust_lang`, `swift`), the taint engines
  (`go_taint`, `javascript_taint`), the Semgrep bridge (`semgrep_compat`
  for the schema and the structural matcher, `semgrep_rule` for compiling
  rules and path filters, `semgrep_taint` and `yaml_value` for `mode:
  taint` rules).
- `src/rules/builtin.rs`: the table of built-in rules as plain values, in
  registration order, with each rule's id and language and the selection
  of the rules for a language.
- `app/`: the command-line program: the registry that turns each built-in
  rule into its rule object and adds the rules loaded from Semgrep files,
  the parallel walk over the file system, and reading YAML rule files.
- `tests/`: tests of the library, run against the compiled crate.

Each taint engine's behaviour is stated as spec functions over the node
arena (`expr_taint`, `step`, `walk`, `analyze`); `analyze_tree` is proved
to return exactly the flows `analyze` describes, and the `law_*` proof
functions state the documented propagation rules on top of it.
