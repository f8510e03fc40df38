use foxguard::engine::parser::parse_file;
use foxguard::rules::go_taint::{
    analyze_tree, go_taint_sources, GoImportAliases, NodeMatcher, TaintFinding, TaintSpec,
};
use foxguard::Language;

fn spec_exec_command() -> TaintSpec {
    TaintSpec {
        sources: go_taint_sources(),
        sinks: vec![NodeMatcher::Call {
            canonical: "exec.Command".into(),
            description: "exec.Command".into(),
        }],
        sanitizers: vec![],
    }
}

fn run(source: &str) -> Vec<TaintFinding> {
    run_with(source, &spec_exec_command())
}

fn run_with(source: &str, spec: &TaintSpec) -> Vec<TaintFinding> {
    let tree = parse_file(source, Language::Go).expect("parse");
    let aliases = GoImportAliases::from_tree(source, &tree);
    analyze_tree(&tree, 0, source, spec, Some(&aliases))
}

#[test]
fn direct_flow_gin_query_to_exec_command() {
    let src = r#"
package main

import "os/exec"

func handler(c *gin.Context) {
    name := c.Query("name")
    exec.Command(name)
}
"#;
    let f = run(src);
    assert_eq!(f.len(), 1);
    assert!(f[0].source_description.contains("gin"));
    assert_eq!(f[0].sink_description, "exec.Command");
}

#[test]
fn net_http_form_value_to_exec() {
    let src = r#"
package main

import (
    "net/http"
    "os/exec"
)

func handler(w http.ResponseWriter, r *http.Request) {
    cmd := r.FormValue("cmd")
    exec.Command(cmd)
}
"#;
    assert_eq!(run(src).len(), 1);
}

#[test]
fn echo_context_query_param_to_exec() {
    let src = r#"
package main

import "os/exec"

func handler(c echo.Context) error {
    name := c.QueryParam("name")
    exec.Command(name)
    return nil
}
"#;
    assert_eq!(run(src).len(), 1);
}

#[test]
fn fiber_ctx_query_to_exec() {
    let src = r#"
package main

import "os/exec"

func handler(c *fiber.Ctx) error {
    name := c.Query("name")
    exec.Command(name)
    return nil
}
"#;
    assert_eq!(run(src).len(), 1);
}

#[test]
fn os_getenv_to_exec() {
    let src = r#"
package main

import (
    "os"
    "os/exec"
)

func main() {
    path := os.Getenv("TARGET")
    exec.Command(path)
}
"#;
    assert_eq!(run(src).len(), 1);
}

#[test]
fn method_call_on_tainted_receiver_propagates() {
    let src = r#"
package main

import "os/exec"

func handler(w http.ResponseWriter, r *http.Request) {
    q := r.URL.Query().Get("name")
    exec.Command(q)
}
"#;
    assert_eq!(run(src).len(), 1);
}

#[test]
fn fmt_sprintf_wraps_taint() {
    let src = r#"
package main

import (
    "fmt"
    "os/exec"
)

func handler(c *gin.Context) {
    cmd := fmt.Sprintf("echo %s", c.Query("name"))
    exec.Command(cmd)
}
"#;
    assert_eq!(run(src).len(), 1);
}

#[test]
fn go_taint_string_concat_propagates_taint() {
    let src = r#"
package main

import "os/exec"

func handler(c *gin.Context) {
    cmd := "echo " + c.Query("name")
    exec.Command(cmd)
}
"#;
    assert_eq!(run(src).len(), 1);
}

#[test]
fn go_taint_reassignment_to_literal_kills_taint() {
    let src = r#"
package main

import "os/exec"

func handler(c *gin.Context) {
    name := c.Query("name")
    name = "static"
    exec.Command(name)
}
"#;
    assert_eq!(run(src).len(), 0);
}

#[test]
fn interprocedural_tainted_return() {
    let src = r#"
package main

import "os/exec"

func getInput(c *gin.Context) string {
    return c.Query("name")
}

func handler(c *gin.Context) {
    name := getInput(c)
    exec.Command(name)
}
"#;
    let f = run(src);
    assert_eq!(f.len(), 1);
    assert!(f[0].source_description.contains("getInput"));
}

#[test]
fn go_taint_interprocedural_clean_return_does_not_fire() {
    let src = r#"
package main

import "os/exec"

func staticCmd() string {
    return "ls"
}

func handler() {
    exec.Command(staticCmd())
}
"#;
    assert_eq!(run(src).len(), 0);
}

#[test]
fn nested_subscript_propagates() {
    let src = r#"
package main

import "os/exec"

func handler(w http.ResponseWriter, r *http.Request) {
    headers := r.Header
    exec.Command(headers["X-Cmd"][0])
}
"#;
    assert_eq!(run(src).len(), 1);
}

#[test]
fn multi_return_destructuring_taints_all() {
    let src = r#"
package main

import "os/exec"

func helper(c *gin.Context) (string, error) {
    return c.Query("name"), nil
}

func handler(c *gin.Context) {
    name, err := helper(c)
    _ = err
    exec.Command(name)
}
"#;
    let f = run(src);
    assert_eq!(f.len(), 1);
}

#[test]
fn go_taint_sanitizer_call_kills_taint() {
    let mut spec = spec_exec_command();
    spec.sanitizers = vec![NodeMatcher::Call {
        canonical: "html.EscapeString".into(),
        description: "html.EscapeString".into(),
    }];
    let src = r#"
package main

import (
    "html"
    "os/exec"
)

func handler(c *gin.Context) {
    raw := c.Query("name")
    clean := html.EscapeString(raw)
    exec.Command(clean)
}
"#;
    assert_eq!(run_with(src, &spec).len(), 0);
}

#[test]
fn go_taint_alias_resolution_through_import_table() {
    let spec = TaintSpec {
        sources: go_taint_sources(),
        sinks: vec![NodeMatcher::Call {
            canonical: "fmt.Sprintf".into(),
            description: "fmt.Sprintf".into(),
        }],
        sanitizers: vec![],
    };
    let src = r#"
package main

import f "fmt"

func handler(c *gin.Context) {
    _ = f.Sprintf("%s", c.Query("name"))
}
"#;
    let findings = run_with(src, &spec);
    assert_eq!(findings.len(), 1);
}

#[test]
fn go_taint_no_source_no_finding() {
    let src = r#"
package main

import "os/exec"

func main() {
    exec.Command("ls", "-la")
}
"#;
    assert_eq!(run(src).len(), 0);
}

#[test]
fn import_alias_table_basic() {
    let src = r#"
package main

import (
    f "fmt"
    "net/http"
    alias "some/pkg/deep"
)
"#;
    let tree = parse_file(src, Language::Go).expect("parse");
    let a = GoImportAliases::from_tree(src, &tree);
    assert_eq!(a.get("f"), Some("fmt"));
    assert_eq!(a.get("http"), Some("http"));
    assert_eq!(a.get("alias"), Some("deep"));
    assert_eq!(a.resolve("f.Sprintf"), "fmt.Sprintf");
    assert_eq!(a.resolve("http.Get"), "http.Get");
}

#[test]
fn method_declaration_summary_collected() {
    let src = r#"
package main

import "os/exec"

type S struct{}

func (s *S) Fetch(c *gin.Context) string {
    return c.Query("name")
}

func handler(c *gin.Context) {
    var s S
    name := s.Fetch(c)
    exec.Command(name)
}
"#;
    let f = run(src);
    assert_eq!(f.len(), 1);
    assert!(f[0].source_description.contains("Fetch"));
}

#[test]
fn go_taint_sources_lists_every_framework() {
    let sources = go_taint_sources();
    assert_eq!(sources.len(), 20);
    assert_eq!(sources[0].description(), "net/http request parameter");
    assert_eq!(sources[19].description(), "os.Args");
    match &sources[8] {
        NodeMatcher::Call { canonical, .. } => assert_eq!(canonical, "c.Query"),
        _ => panic!("expected a call matcher"),
    }
}

#[test]
fn dot_and_blank_imports_record_nothing() {
    let src = r#"
package main

import (
    . "strings"
    _ "embed"
)
"#;
    let tree = parse_file(src, Language::Go).expect("parse");
    let a = GoImportAliases::from_tree(src, &tree);
    assert_eq!(a.get("strings"), None);
    assert_eq!(a.get("embed"), None);
    assert_eq!(a.resolve("x.Y"), "x.Y");
}

#[test]
fn equal_arity_assignment_pairs_names() {
    let src = r#"
package main

import "os/exec"

func handler(c *gin.Context) {
    a, b := c.Query("x"), "ls"
    exec.Command(b)
    exec.Command(a)
}
"#;
    let f = run(src);
    assert_eq!(f.len(), 1);
    assert_eq!(f[0].sink_line, 9);
}

#[test]
fn adding_a_sanitizer_only_removes_flows() {
    let src = r#"
package main

import (
    "html"
    "os/exec"
)

func handler(c *gin.Context) {
    raw := c.Query("name")
    clean := html.EscapeString(raw)
    exec.Command(clean)
    exec.Command(raw)
}
"#;
    let before = run_with(src, &spec_exec_command());
    let mut spec = spec_exec_command();
    spec.sanitizers = vec![NodeMatcher::Call {
        canonical: "html.EscapeString".into(),
        description: "html.EscapeString".into(),
    }];
    let after = run_with(src, &spec);
    assert_eq!(before.len(), 2);
    assert_eq!(after.len(), 1);
    for f in &after {
        assert!(before
            .iter()
            .any(|g| g.sink_start_byte == f.sink_start_byte && g.sink_end_byte == f.sink_end_byte));
    }
}
