use foxguard::engine::parser::parse_file;
use foxguard::rules::javascript_taint::{
    analyze_tree, javascript_taint_sources, JsImportAliases, NodeMatcher, TaintFinding, TaintSpec,
};
use foxguard::Language;

fn spec_innerhtml_from_req() -> TaintSpec {
    TaintSpec {
        sources: javascript_taint_sources(),
        sinks: vec![
            NodeMatcher::MemberAssign {
                field: "innerHTML".into(),
                description: "innerHTML assignment".into(),
            },
            NodeMatcher::MemberAssign {
                field: "outerHTML".into(),
                description: "outerHTML assignment".into(),
            },
            NodeMatcher::Call {
                canonical: "document.write".into(),
                description: "document.write".into(),
            },
        ],
        sanitizers: vec![],
    }
}

fn run(source: &str) -> Vec<TaintFinding> {
    let tree = parse_file(source, Language::JavaScript).expect("parse");
    let aliases = JsImportAliases::from_tree(source, &tree);
    analyze_tree(&tree, 0, source, &spec_innerhtml_from_req(), Some(&aliases))
}

#[test]
fn direct_flow_req_body_to_innerhtml() {
    let src = r#"
function handler(req) {
    document.getElementById("x").innerHTML = req.body;
}
"#;
    let f = run(src);
    assert_eq!(f.len(), 1);
    assert!(f[0].source_description.contains("req.body"));
    assert_eq!(f[0].sink_description, "innerHTML assignment");
}

#[test]
fn express_param_source_is_implicit() {
    // No explicit `req.body` access: the handler uses the bare `req`
    // parameter, which is tainted via ParamName.
    let src = r#"
app.get("/", function(req, res) {
    document.write(req);
});
"#;
    assert_eq!(run(src).len(), 1);
}

#[test]
fn express_param_source_via_field_access() {
    let src = r#"
app.get("/", function(req, res) {
    document.write(req.body.title);
});
"#;
    assert_eq!(run(src).len(), 1);
}

#[test]
fn template_literal_propagates_taint() {
    let src = r#"
function handler(req) {
    const el = document.getElementById("x");
    el.innerHTML = `<p>${req.body.name}</p>`;
}
"#;
    assert_eq!(run(src).len(), 1);
}

#[test]
fn javascript_taint_reassignment_to_literal_kills_taint() {
    let src = r#"
function handler(req) {
    let data = req.body.data;
    data = "clean";
    document.write(data);
}
"#;
    assert_eq!(run(src).len(), 0);
}

#[test]
fn subscript_on_tainted_root_is_tainted() {
    let src = r#"
function handler(req) {
    document.write(req.body["payload"]);
}
"#;
    assert_eq!(run(src).len(), 1);
}

#[test]
fn one_hop_assignment_propagates() {
    let src = r#"
function handler(req) {
    const name = req.query.name;
    document.getElementById("x").innerHTML = name;
}
"#;
    assert_eq!(run(src).len(), 1);
}

#[test]
fn alias_chain_propagates() {
    let src = r#"
function handler(req) {
    const data = req.body.data;
    const moreData = data;
    document.write(moreData);
}
"#;
    assert_eq!(run(src).len(), 1);
}

#[test]
fn javascript_taint_no_source_no_finding() {
    let src = r#"
function handler() {
    const x = "static";
    document.write(x);
    document.getElementById("a").innerHTML = "<p>hi</p>";
}
"#;
    assert_eq!(run(src).len(), 0);
}

#[test]
fn nested_function_has_independent_taint() {
    let src = r#"
function outer(req) {
    const data = req.body;
    function inner() {
        document.write(data);
    }
    return inner;
}
"#;
    // `outer` has no sink call; `inner` sees no source because `data`
    // is not in its local taint state.
    assert_eq!(run(src).len(), 0);
}

#[test]
fn arrow_function_body_is_analyzed() {
    let src = r#"
const handler = (req, res) => {
    document.write(req.body.x);
};
"#;
    assert_eq!(run(src).len(), 1);
}

#[test]
fn javascript_taint_alias_resolution_through_import_table() {
    // `const { loads } = require("pickle"); loads(x)` must resolve to
    // `pickle.loads` — verified via a spec that uses Call sink matching.
    let src = r#"
const { loads } = require("pickle");
function handler(req) {
    loads(req.body);
}
"#;
    let spec = TaintSpec {
        sources: javascript_taint_sources(),
        sinks: vec![NodeMatcher::Call {
            canonical: "pickle.loads".into(),
            description: "pickle.loads".into(),
        }],
        sanitizers: vec![],
    };
    let tree = parse_file(src, Language::JavaScript).expect("parse");
    let aliases = JsImportAliases::from_tree(src, &tree);
    let findings = analyze_tree(&tree, 0, src, &spec, Some(&aliases));
    assert_eq!(findings.len(), 1);
}

#[test]
fn alias_import_star_as_namespace() {
    let src = r#"
import * as pickle from "pickle";
function handler(req) {
    pickle.loads(req.body);
}
"#;
    let spec = TaintSpec {
        sources: javascript_taint_sources(),
        sinks: vec![NodeMatcher::Call {
            canonical: "pickle.loads".into(),
            description: "pickle.loads".into(),
        }],
        sanitizers: vec![],
    };
    let tree = parse_file(src, Language::JavaScript).expect("parse");
    let aliases = JsImportAliases::from_tree(src, &tree);
    let findings = analyze_tree(&tree, 0, src, &spec, Some(&aliases));
    assert_eq!(findings.len(), 1);
}

#[test]
fn require_default_binding_resolves() {
    let src = r#"const pk = require("pickle");"#;
    let tree = parse_file(src, Language::JavaScript).expect("parse");
    let a = JsImportAliases::from_tree(src, &tree);
    assert_eq!(a.get("pk"), Some("pickle"));
    assert_eq!(a.resolve("pk.loads"), "pickle.loads");
}

#[test]
fn named_import_with_alias_resolves() {
    let src = r#"import { loads as l2 } from "pickle";"#;
    let tree = parse_file(src, Language::JavaScript).expect("parse");
    let a = JsImportAliases::from_tree(src, &tree);
    assert_eq!(a.get("l2"), Some("pickle.loads"));
}

#[test]
fn javascript_taint_string_concat_propagates_taint() {
    let src = r#"
function handler(req) {
    document.write("<h1>" + req.body.title + "</h1>");
}
"#;
    assert_eq!(run(src).len(), 1);
}

#[test]
fn interprocedural_tainted_return_propagates_to_caller() {
    // Use a module-scoped `req` so the caller's argument list is clean
    // and the only path to taint in the caller is via the helper's
    // return summary.
    let src = r#"
function getUserInput() {
    return req.body;
}

function handler() {
    const data = getUserInput();
    document.write(data);
}
"#;
    let f = run(src);
    assert_eq!(f.len(), 1);
    assert!(f[0].source_description.contains("getUserInput"));
}

#[test]
fn javascript_taint_interprocedural_clean_return_does_not_fire() {
    let src = r#"
function cleanHelper() {
    return "static";
}

function handler() {
    document.write(cleanHelper());
}
"#;
    assert_eq!(run(src).len(), 0);
}

#[test]
fn interprocedural_late_definition_still_found() {
    let src = r#"
function handler() {
    const data = helper();
    document.write(data);
}

function helper() {
    return req.body;
}
"#;
    let f = run(src);
    assert_eq!(f.len(), 1);
    assert!(f[0].source_description.contains("helper"));
}

#[test]
fn multi_hop_chain_is_out_of_scope_v1() {
    // Two-hop chain: `middle` calls `sourceFn`. Pass 1 uses an empty
    // summary, so `middle`'s return is seen as clean. Documented
    // v1 limitation — the test pins the behavior. The handler has
    // no tainted argument (no `req` param or access), so the only
    // path to taint would be a working multi-hop summary.
    let src = r#"
function sourceFn() {
    return req.body;
}

function middle() {
    return sourceFn();
}

function handler() {
    document.write(middle());
}
"#;
    assert_eq!(run(src).len(), 0);
}

#[test]
fn interprocedural_arrow_function_helper_propagates() {
    // Arrow-function helper with concise body assigned to a const.
    let src = r#"
const getInput = () => req.body;

function handler() {
    document.write(getInput());
}
"#;
    let f = run(src);
    assert_eq!(f.len(), 1);
    assert!(f[0].source_description.contains("getInput"));
}

#[test]
fn interprocedural_arrow_function_block_body_propagates() {
    let src = r#"
const getInput = () => { return req.body; };

function handler() {
    const data = getInput();
    document.write(data);
}
"#;
    let f = run(src);
    assert_eq!(f.len(), 1);
    assert!(f[0].source_description.contains("getInput"));
}

#[test]
fn method_call_on_tainted_source_propagates() {
    // `req.body.get("x")` — receiver `req.body` is a source, method
    // call result must carry the taint into the sink.
    let src = r#"
function handler(req) {
    const data = req.body.get("x");
    document.write(data);
}
"#;
    let f = run(src);
    assert_eq!(f.len(), 1);
    assert!(f[0].source_description.contains("req.body"));
}

#[test]
fn method_call_with_args_still_tainted() {
    let src = r#"
function handler(req) {
    const data = req.body.get("x", "default");
    document.write(data);
}
"#;
    assert_eq!(run(src).len(), 1);
}

#[test]
fn chained_method_calls_preserve_taint() {
    let src = r#"
function handler(req) {
    const data = req.body.get("x").trim().toUpperCase();
    document.write(data);
}
"#;
    assert_eq!(run(src).len(), 1);
}

#[test]
fn to_string_on_tainted_value_is_tainted() {
    let src = r#"
function handler(req) {
    const data = req.body.toString();
    document.write(data);
}
"#;
    assert_eq!(run(src).len(), 1);
}

#[test]
fn javascript_taint_sanitizer_call_kills_taint() {
    let mut spec = spec_innerhtml_from_req();
    spec.sanitizers = vec![NodeMatcher::Call {
        canonical: "escapeHtml".into(),
        description: "escapeHtml".into(),
    }];
    let src = r#"
function handler(req) {
    const raw = req.body;
    const clean = escapeHtml(raw);
    document.write(clean);
}
"#;
    let tree = parse_file(src, Language::JavaScript).expect("parse");
    let aliases = JsImportAliases::from_tree(src, &tree);
    assert_eq!(
        analyze_tree(&tree, 0, src, &spec, Some(&aliases)).len(),
        0
    );
}

#[test]
fn destructuring_taints_every_bound_name() {
    let src = r#"
function handler(req) {
    const { a, b: [c, ...rest] } = req.body;
    document.write(a);
    document.write(c);
    document.write(rest);
}
"#;
    assert_eq!(run(src).len(), 3);
}

#[test]
fn member_assignment_binds_no_name() {
    let src = r#"
function handler(req) {
    const obj = {};
    obj.data = req.body;
    document.write(obj.data);
}
"#;
    assert_eq!(run(src).len(), 0);
}

#[test]
fn sanitizer_input_stays_tainted() {
    let mut spec = spec_innerhtml_from_req();
    spec.sanitizers = vec![NodeMatcher::Call { canonical: "escapeHtml".into(), description: "escapeHtml".into() }];
    let src = r#"
function handler(req) {
    const raw = req.body;
    const clean = escapeHtml(raw);
    document.write(clean);
    document.write(raw);
}
"#;
    let tree = parse_file(src, Language::JavaScript).expect("parse");
    let aliases = JsImportAliases::from_tree(src, &tree);
    let f = analyze_tree(&tree, 0, src, &spec, Some(&aliases));
    assert_eq!(f.len(), 1);
    assert_eq!(f[0].sink_line, 6);
}

#[test]
fn later_import_of_a_name_wins() {
    let src = "import { a } from \"x\";\nimport { a } from \"y\";\n";
    let tree = parse_file(src, Language::JavaScript).expect("parse");
    let al = JsImportAliases::from_tree(src, &tree);
    assert_eq!(al.get("a"), Some("y.a"));
    assert_eq!(al.resolve("a"), "y.a");
    assert_eq!(al.resolve("b.c"), "b.c");
}

#[test]
fn finding_positions_and_descriptions() {
    let src = "function handler(req) {\n  el.innerHTML = req.query;\n}\n";
    let f = run(src);
    assert_eq!(f.len(), 1);
    assert_eq!(f[0].sink_line, 2);
    assert_eq!(f[0].sink_column, 3);
    assert_eq!(f[0].sink_end_line, 2);
    assert_eq!(f[0].source_description, "req.query");
    assert_eq!(&src[f[0].sink_start_byte..f[0].sink_end_byte], "el.innerHTML = req.query");
}
