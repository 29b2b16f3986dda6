use tauri_mcp::commands::{
    console_logs, console_logs_script, dispatch, dom_snapshot, execute, interact, plan_command,
    resize, resize_result, screenshot, screenshot_result, wait_for, CommandArgs, Helper, NumberArg,
    Plan,
};
use tauri_mcp::dispatch::{parse_command, resolve_target, Command, Surface, AVAILABLE_COMMANDS};

fn surfaces(items: &[(&str, bool)]) -> Vec<Surface> {
    items.iter().map(|(l, f)| Surface { label: l.to_string(), focused: *f }).collect()
}

fn args() -> CommandArgs {
    CommandArgs::new("{}".to_string())
}

#[test]
fn unknown_command_lists_the_valid_set() {
    let s = surfaces(&[("main", true)]);
    let err = dispatch("not_a_real_command", &args(), &s).err().unwrap();
    assert_eq!(
        err,
        "Unknown command: 'not_a_real_command'. Available: screenshot, execute_js, console_logs, dom_snapshot, interact, wait_for, window_list, window_info, window_resize"
    );
    for name in AVAILABLE_COMMANDS.split(", ") {
        assert!(err.contains(name));
        assert!(parse_command(name).is_ok());
    }
}

#[test]
fn unknown_target_lists_the_available_selectors() {
    let s = surfaces(&[("main", false), ("settings", true)]);
    let mut a = args();
    a.window_id = Some("nope".to_string());
    assert_eq!(
        dispatch("window_info", &a, &s).err().unwrap(),
        "Window 'nope' not found. Available: main, settings"
    );
}

#[test]
fn no_surface_is_an_error() {
    assert_eq!(resolve_target(&Vec::new(), None), Err("No windows available".to_string()));
    assert_eq!(resolve_target(&Vec::new(), Some("main")), Err("No windows available".to_string()));
}

#[test]
fn target_prefers_selector_then_focus_then_first() {
    let s = surfaces(&[("a", false), ("b", true), ("c", true)]);
    assert_eq!(resolve_target(&s, Some("c")), Ok(2));
    assert_eq!(resolve_target(&s, None), Ok(1));
    let t = surfaces(&[("a", false), ("b", false)]);
    assert_eq!(resolve_target(&t, None), Ok(0));
}

#[test]
fn parse_command_maps_each_name() {
    assert_eq!(parse_command("screenshot"), Ok(Command::Screenshot));
    assert_eq!(parse_command("window_resize"), Ok(Command::WindowResize));
    assert!(parse_command("Screenshot").is_err());
    assert!(parse_command("").is_err());
}

#[test]
fn dispatch_reports_context_of_the_target() {
    let s = surfaces(&[("main", false), ("side", true)]);
    let mut a = args();
    a.script = Some("1 + 1".to_string());
    let d = dispatch("execute_js", &a, &s).ok().unwrap();
    assert_eq!(d.target, 1);
    assert_eq!(d.context.window_label, "side");
    assert_eq!(d.context.total_windows, 2);
    match d.plan {
        Plan::RunScript { script, timeout_secs } => {
            assert_eq!(script, "1 + 1");
            assert_eq!(timeout_secs, 5);
        }
        _ => panic!("expected a script"),
    }
}

#[test]
fn target_is_resolved_before_the_command() {
    assert_eq!(
        dispatch("not_a_real_command", &args(), &Vec::new()).err().unwrap(),
        "No windows available"
    );
}

#[test]
fn execute_js_needs_a_script_and_takes_its_timeout() {
    assert_eq!(
        plan_command(Command::ExecuteJs, &args()).err().unwrap(),
        "Missing required 'script' argument"
    );
    let mut a = args();
    a.script = Some("x".to_string());
    a.timeout = Some(30);
    assert!(matches!(plan_command(Command::ExecuteJs, &a), Ok(Plan::RunScript { timeout_secs: 30, .. })));
}

#[test]
fn console_logs_quotes_its_filters() {
    let mut a = args();
    a.filter = Some("it's \"x\"".to_string());
    a.clear = Some(true);
    let s = console_logs_script(&a);
    assert!(s.contains(r#"getLogs("it's \"x\"", null);"#));
    assert!(s.contains("window.__tauriMcpConsole.clear();"));
    let b = console_logs_script(&args());
    assert!(b.contains("getLogs(null, null);"));
    assert!(!b.contains(".clear();"));
}

#[test]
fn dom_snapshot_checks_its_type() {
    let mut a = args();
    a.snapshot_type = Some("pixels".to_string());
    assert_eq!(
        plan_command(Command::DomSnapshot, &a).err().unwrap(),
        "Invalid snapshot type: 'pixels'. Use 'accessibility' or 'structure'."
    );
    let mut b = args();
    b.selector = Some("#app".to_string());
    match plan_command(Command::DomSnapshot, &b) {
        Ok(Plan::RunHelper { helper, call, timeout_secs }) => {
            assert_eq!(helper, Helper::DomSnapshot);
            assert_eq!(call, r##"window.__tauriMcpDomSnapshot('accessibility', "#app")"##);
            assert_eq!(timeout_secs, 5);
        }
        _ => panic!("expected a helper call"),
    }
}

#[test]
fn interact_needs_an_action() {
    assert_eq!(
        plan_command(Command::Interact, &args()).err().unwrap(),
        "Missing required 'action' argument"
    );
    let mut a = CommandArgs::new(r#"{"action":"click"}"#.to_string());
    a.action = Some("click".to_string());
    match plan_command(Command::Interact, &a) {
        Ok(Plan::RunHelper { call, .. }) => assert_eq!(call, r#"window.__tauriMcpInteract({"action":"click"})"#),
        _ => panic!("expected a helper call"),
    }
}

#[test]
fn wait_for_deadline_from_milliseconds() {
    let secs = |t: Option<u64>| {
        let mut a = args();
        a.timeout = t;
        match plan_command(Command::WaitFor, &a) {
            Ok(Plan::RunHelper { timeout_secs, .. }) => timeout_secs,
            _ => panic!("expected a helper call"),
        }
    };
    assert_eq!(secs(None), 7);
    assert_eq!(secs(Some(10_000)), 12);
    assert_eq!(secs(Some(1_500)), 3);
    assert_eq!(secs(Some(200)), 3);
}

#[test]
fn screenshot_defaults_and_caps_quality() {
    let mut a = args();
    a.quality = Some(250);
    match plan_command(Command::Screenshot, &a) {
        Ok(Plan::Screenshot { format, quality }) => {
            assert_eq!(format, "png");
            assert_eq!(quality, Some(100));
        }
        _ => panic!("expected a screenshot"),
    }
    assert_eq!(screenshot_result("jpg", "QUJD"), r#""data:image/jpeg;base64,QUJD""#);
    assert_eq!(screenshot_result("webp", "QUJD"), r#""data:image/png;base64,QUJD""#);
}

#[test]
fn resize_checks_width_then_height() {
    let mut a = args();
    assert_eq!(
        plan_command(Command::WindowResize, &a).err().unwrap(),
        "Missing required 'width' argument"
    );
    a.width = NumberArg::Other("-3".to_string());
    assert_eq!(
        plan_command(Command::WindowResize, &a).err().unwrap(),
        "'width' must be a positive integer, got: -3"
    );
    a.width = NumberArg::Unsigned(800);
    assert_eq!(
        plan_command(Command::WindowResize, &a).err().unwrap(),
        "Missing required 'height' argument"
    );
    a.height = NumberArg::Unsigned((1u64 << 32) + 600);
    assert!(matches!(
        plan_command(Command::WindowResize, &a),
        Ok(Plan::Resize { width: 800, height: 600 })
    ));
    assert_eq!(resize_result(800, 600), r#""Resized to 800x600""#);
}

#[test]
fn handlers_plan_like_the_dispatcher() {
    let mut a = args();
    a.script = Some("document.title".to_string());
    assert!(matches!(execute(&a), Ok(Plan::RunScript { timeout_secs: 5, .. })));
    assert!(matches!(console_logs(&a), Plan::RunScript { timeout_secs: 5, .. }));
    assert!(dom_snapshot(&a).is_ok());
    assert!(interact(&a).is_err());
    assert!(matches!(wait_for(&a), Plan::RunHelper { helper: Helper::WaitFor, timeout_secs: 7, .. }));
    assert!(resize(&a).is_err());
    match screenshot(&a) {
        Plan::Screenshot { format, quality } => {
            assert_eq!(format, "png");
            assert_eq!(quality, None);
        }
        _ => panic!("expected a screenshot"),
    }
}
