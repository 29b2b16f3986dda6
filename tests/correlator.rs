use tauri_mcp::correlator::{
    begin_execution, check_step, create_cleanup_script, create_poll_script, create_retrieve_script, create_wrapped_script,
    settle, sleep_step, submission_failed, ResultListener, ScriptOutcome, ScriptResultPayload, SlotState, WaitPlan,
    WaitStep, CHANNEL_CLOSED, DEFAULT_TIMEOUT_SECS, FALLBACK_POLL_INTERVAL_MS,
};

fn payload(id: &str, success: bool, data: Option<&str>, error: Option<&str>) -> ScriptResultPayload {
    ScriptResultPayload {
        exec_id: id.to_string(),
        success,
        data: data.map(str::to_string),
        error: error.map(str::to_string),
    }
}

fn plan() -> WaitPlan {
    WaitPlan { timeout_secs: DEFAULT_TIMEOUT_SECS, poll_interval_ms: FALLBACK_POLL_INTERVAL_MS }
}

fn done(step: WaitStep) -> Result<String, String> {
    match step {
        WaitStep::Done(r) => r,
        WaitStep::Poll => panic!("expected a result, got a poll"),
        WaitStep::Sleep(ms) => panic!("expected a result, got a sleep of {ms}ms"),
    }
}

#[test]
fn execution_ids_are_fresh_hyphenated_uuids() {
    let a = begin_execution("document.title");
    let b = begin_execution("document.title");
    assert_ne!(a.exec_id, b.exec_id);
    assert_eq!(a.exec_id.len(), 36);
    for (i, c) in a.exec_id.chars().enumerate() {
        if [8, 13, 18, 23].contains(&i) {
            assert_eq!(c, '-');
        } else {
            assert!(c.is_ascii_hexdigit() && !c.is_ascii_uppercase());
        }
    }
}

#[test]
fn begin_execution_wraps_prepared_snippet_under_its_id() {
    let p = begin_execution("  document.title ");
    assert_eq!(p.script, create_wrapped_script(&p.exec_id, "return document.title"));
    assert!(p.script.contains("const __executeScript = async () => { return document.title };"));
    assert_eq!(p.script.matches(p.exec_id.as_str()).count(), 3);
}

#[test]
fn wrapped_script_stores_before_it_notifies() {
    let s = create_wrapped_script("id-1", "return 1");
    let store = s.find("window.__tauriMcpResults['id-1'] = {").unwrap();
    let emit = s.find("window.__TAURI__.event.emit('__tauri_mcp_script_result'").unwrap();
    let invoke = s.find("window.__TAURI_INTERNALS__.invoke('plugin:event|emit'").unwrap();
    assert!(store < emit && emit < invoke);
    assert!(s.contains("}, 10000);"));
    assert!(s.contains("exec_id: 'id-1'"));
    assert!(s.contains(".catch(function(error)"));
}

#[test]
fn poll_and_cleanup_scripts_address_the_execution() {
    let p = create_poll_script("abc");
    assert!(p.contains("result = window.__tauriMcpResults['abc'];"));
    assert!(p.contains("window['__poll_abc'] = result;"));
    let r = create_retrieve_script("abc");
    assert!(r.contains("var r = window['__poll_abc'];"));
    assert!(r.contains("delete window['__poll_abc'];"));
    assert!(r.contains("exec_id: 'abc'"));
    assert_eq!(
        create_cleanup_script("abc"),
        "if (window.__tauriMcpResults) { delete window.__tauriMcpResults['abc']; }"
    );
}

#[test]
fn listener_takes_only_its_own_id() {
    let mut a = ResultListener::new("exec-a".to_string());
    let mut b = ResultListener::new("exec-b".to_string());
    let for_b = payload("exec-b", true, Some("2"), None);
    assert!(a.on_notification(for_b).is_none());
    assert!(!a.resolved);
    match b.on_notification(payload("exec-b", true, Some("2"), None)) {
        Some(ScriptOutcome::Value(v)) => assert_eq!(v, "2"),
        _ => panic!("b should resolve"),
    }
    match a.on_notification(payload("exec-a", true, Some("1"), None)) {
        Some(ScriptOutcome::Value(v)) => assert_eq!(v, "1"),
        _ => panic!("a should resolve"),
    }
}

#[test]
fn listener_resolves_at_most_once() {
    let mut l = ResultListener::new("x".to_string());
    assert!(l.on_notification(payload("x", false, None, Some("boom"))).is_some());
    assert!(l.resolved);
    assert!(l.on_notification(payload("x", true, Some("1"), None)).is_none());
}

#[test]
fn listener_fills_in_missing_fields() {
    let mut l = ResultListener::new("x".to_string());
    match l.on_notification(payload("x", true, None, None)) {
        Some(ScriptOutcome::Value(v)) => assert_eq!(v, "null"),
        _ => panic!("expected a value"),
    }
    let mut m = ResultListener::new("y".to_string());
    match m.on_notification(payload("y", false, None, None)) {
        Some(ScriptOutcome::Thrown(e)) => assert_eq!(e, "Unknown error"),
        _ => panic!("expected an error"),
    }
}

#[test]
fn check_step_before_deadline() {
    assert!(matches!(check_step(plan(), 0, SlotState::Empty), WaitStep::Poll));
    assert_eq!(
        done(check_step(plan(), 10, SlotState::Resolved(ScriptOutcome::Value("7".to_string())))),
        Ok("7".to_string())
    );
    assert_eq!(
        done(check_step(plan(), 10, SlotState::Resolved(ScriptOutcome::Thrown("bad".to_string())))),
        Err("Script error: bad".to_string())
    );
    assert_eq!(done(check_step(plan(), 10, SlotState::Closed)), Err(CHANNEL_CLOSED.to_string()));
}

#[test]
fn check_step_times_out_at_the_deadline() {
    assert!(matches!(check_step(plan(), 4999, SlotState::Empty), WaitStep::Poll));
    assert_eq!(
        done(check_step(plan(), 5000, SlotState::Empty)),
        Err("Script execution timeout after 5s".to_string())
    );
    assert_eq!(
        done(check_step(plan(), 5000, SlotState::Resolved(ScriptOutcome::Value("1".to_string())))),
        Err("Script execution timeout after 5s".to_string())
    );
}

#[test]
fn sleep_step_never_passes_the_deadline() {
    assert!(matches!(sleep_step(plan(), 0), WaitStep::Sleep(50)));
    assert!(matches!(sleep_step(plan(), 4980), WaitStep::Sleep(20)));
    assert!(matches!(sleep_step(plan(), 4999), WaitStep::Sleep(1)));
    assert_eq!(done(sleep_step(plan(), 5000)), Err("Script execution timeout after 5s".to_string()));
    assert_eq!(done(sleep_step(plan(), 9000)), Err("Script execution timeout after 5s".to_string()));
}

#[test]
fn zero_deadline_fails_at_once() {
    let p = WaitPlan { timeout_secs: 0, poll_interval_ms: 50 };
    assert_eq!(done(check_step(p, 0, SlotState::Empty)), Err("Script execution timeout after 0s".to_string()));
}

#[test]
fn huge_deadline_does_not_overflow() {
    let p = WaitPlan { timeout_secs: u64::MAX, poll_interval_ms: 50 };
    assert!(matches!(check_step(p, u64::MAX, SlotState::Empty), WaitStep::Poll));
    assert!(matches!(sleep_step(p, u64::MAX), WaitStep::Sleep(50)));
}

#[test]
fn a_stored_result_is_reached_by_polling_alone() {
    // The push transport is unavailable: the slot only fills once a poll has
    // re-emitted the stored record. Simulate the rounds of the loop.
    let p = plan();
    let mut elapsed: u64 = 0;
    let completed_at: u64 = 120;
    let mut listener = ResultListener::new("e1".to_string());
    let mut slot: Option<ScriptOutcome> = None;
    loop {
        let state = match slot.take() {
            Some(o) => SlotState::Resolved(o),
            None => SlotState::Empty,
        };
        match check_step(p, elapsed, state) {
            WaitStep::Done(r) => {
                assert_eq!(r, Ok("\"ok\"".to_string()));
                assert!(elapsed <= completed_at + FALLBACK_POLL_INTERVAL_MS);
                break;
            }
            WaitStep::Poll => {
                if elapsed >= completed_at {
                    slot = listener.on_notification(payload("e1", true, Some("\"ok\""), None));
                }
            }
            WaitStep::Sleep(_) => unreachable!(),
        }
        if slot.is_some() {
            continue;
        }
        match sleep_step(p, elapsed) {
            WaitStep::Sleep(ms) => elapsed += ms,
            other => panic!("unexpected {}", matches!(other, WaitStep::Poll)),
        }
    }
}

#[test]
fn settle_reports_each_slot_state() {
    assert!(settle(SlotState::Empty).is_none());
    assert_eq!(settle(SlotState::Closed), Some(Err(CHANNEL_CLOSED.to_string())));
    assert_eq!(
        settle(SlotState::Resolved(ScriptOutcome::Thrown("x".to_string()))),
        Some(Err("Script error: x".to_string()))
    );
}

#[test]
fn submission_failure_keeps_the_refusal() {
    assert_eq!(submission_failed("webview gone"), "Script execution failed: webview gone");
}
