use tauri_mcp::script::{classify_script, prepare_script, ScriptShape};

#[test]
fn prepare_script_adds_return_to_expression() {
    assert_eq!(prepare_script("document.title"), "return document.title");
    assert_eq!(prepare_script("1 + 2"), "return 1 + 2");
    assert_eq!(prepare_script("'hello'"), "return 'hello'");
}

#[test]
fn prepare_script_adds_return_to_object_literal() {
    assert_eq!(prepare_script("{ foo: 'bar' }"), "return { foo: 'bar' }");
}

#[test]
fn prepare_script_adds_return_to_array_literal() {
    assert_eq!(prepare_script("[1, 2, 3]"), "return [1, 2, 3]");
}

#[test]
fn prepare_script_adds_return_to_await() {
    assert_eq!(prepare_script("await fetch('/api')"), "return await fetch('/api')");
}

#[test]
fn prepare_script_adds_return_to_iife() {
    assert_eq!(prepare_script("(function() {})()"), "return (function() {})()");
}

#[test]
fn prepare_script_preserves_explicit_return() {
    assert_eq!(prepare_script("return 42"), "return 42");
}

#[test]
fn prepare_script_no_return_for_const() {
    let script = "const x = 1; x + 1";
    assert_eq!(prepare_script(script), script);
}

#[test]
fn prepare_script_no_return_for_let() {
    let script = "let x = 1; x++; x";
    assert_eq!(prepare_script(script), script);
}

#[test]
fn prepare_script_no_return_for_if() {
    let script = "if (true) { return 1; }";
    assert_eq!(prepare_script(script), script);
}

#[test]
fn prepare_script_no_return_for_function_def() {
    let script = "function foo() { return 1; }";
    assert_eq!(prepare_script(script), script);
}

#[test]
fn prepare_script_adds_return_to_json_stringify() {
    assert_eq!(
        prepare_script("JSON.stringify({ a: 1 })"),
        "return JSON.stringify({ a: 1 })"
    );
}

#[test]
fn prepare_script_adds_return_to_new_expression() {
    assert_eq!(prepare_script("new Date()"), "return new Date()");
}

#[test]
fn prepare_script_adds_return_to_window_access() {
    assert_eq!(prepare_script("window.location.href"), "return window.location.href");
}

#[test]
fn prepare_script_trims_whitespace() {
    assert_eq!(prepare_script("  document.title  "), "return document.title");
}

#[test]
fn prepare_script_examples_of_each_rule() {
    assert_eq!(prepare_script("document.title"), "return document.title");
    assert_eq!(prepare_script("const x = 1; x + 1"), "const x = 1; x + 1");
    assert_eq!(prepare_script("(function(){})()"), "return (function(){})()");
    assert_eq!(prepare_script("return 42"), "return 42");
}

#[test]
fn prepare_script_keeps_leading_space_of_explicit_return() {
    assert_eq!(prepare_script("  return 1  "), "  return 1  ");
}

#[test]
fn prepare_script_single_trailing_semicolon_is_no_separator() {
    assert_eq!(prepare_script("foo();"), "return foo();");
    assert_eq!(prepare_script("a;;"), "a;;");
}

#[test]
fn prepare_script_statement_sequence_wins_over_expression_shape() {
    assert_eq!(prepare_script("document.x = 1; foo()"), "document.x = 1; foo()");
}

#[test]
fn prepare_script_keyword_needs_its_space() {
    assert_eq!(prepare_script("if(x) y"), "return if(x) y");
    assert_eq!(prepare_script("try { a() } catch (e) {}"), "try { a() } catch (e) {}");
    assert_eq!(prepare_script("class A {}"), "class A {}");
    assert_eq!(prepare_script("while (x) y()"), "while (x) y()");
    assert_eq!(prepare_script("for (;;) {}"), "for (;;) {}");
    assert_eq!(prepare_script("var a = 1"), "var a = 1");
}

#[test]
fn prepare_script_trims_unicode_white_space() {
    assert_eq!(prepare_script("\u{3000}\tx\u{a0}\n"), "return x");
}

#[test]
fn prepare_script_blank_input() {
    assert_eq!(prepare_script(""), "return ");
    assert_eq!(prepare_script("   "), "return ");
}

#[test]
fn prepare_script_is_idempotent_on_its_output() {
    for s in ["document.title", "  1 + 2 ", "return 42", "const x = 1; x", "{ a: 1 }", "foo()"] {
        let once = prepare_script(s);
        assert_eq!(prepare_script(&once), once);
    }
}

#[test]
fn classify_script_names_each_shape() {
    assert_eq!(classify_script("return 1"), ScriptShape::ExplicitReturn);
    assert_eq!(classify_script("let a = 1"), ScriptShape::MultiStatement);
    assert_eq!(classify_script("a; b"), ScriptShape::MultiStatement);
    assert_eq!(classify_script("await x()"), ScriptShape::SingleExpression);
    assert_eq!(classify_script("f()()"), ScriptShape::SingleExpression);
    assert_eq!(classify_script("(f)()"), ScriptShape::SingleExpression);
    assert_eq!(classify_script("g)()"), ScriptShape::SingleExpression);
    assert_eq!(classify_script("foo()"), ScriptShape::Ambiguous);
}
