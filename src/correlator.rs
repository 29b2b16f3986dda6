//! Remote execution correlator.
//!
//! A snippet runs in the remote environment under a fresh execution id. The
//! remote side stores its completion record in a shared results map keyed by
//! that id (the durable fallback), then tries to push a notification under a
//! fixed event name. The waiting side races that notification against a
//! polling interval, asking the remote side to re-emit the stored record,
//! until the result arrives, the notification channel closes, or the deadline
//! passes. The functions here make each of those decisions; the caller performs
//! the waits and the remote evaluations they ask for.

use vstd::prelude::*;
use vstd::string::StringExecFns;

use crate::script::{prepare_script, prepared};
use crate::text::{decimal, decimal_text, same_text};

verus! {

broadcast use vstd::string::group_string_axioms;

/// Deadline of a remote-code call when none is given, in seconds.
pub const DEFAULT_TIMEOUT_SECS: u64 = 5;

/// Interval between fallback polls of the remote result store, in milliseconds.
pub const FALLBACK_POLL_INTERVAL_MS: u64 = 50;

/// Event name under which the remote side pushes completion records.
pub const RESULT_EVENT: &'static str = "__tauri_mcp_script_result";

/// Error text of a failed remote call that reported no message.
pub const UNKNOWN_ERROR: &'static str = "Unknown error";

/// Error text when the notification channel was torn down before resolving.
pub const CHANNEL_CLOSED: &'static str = "Script execution failed: result channel closed";

/// A lower-case hexadecimal digit.
pub open spec fn is_hex_digit(c: char) -> bool {
    ('0' <= c && c <= '9') || ('a' <= c && c <= 'f')
}

/// Hyphenated lower-case UUID text: 36 characters, hyphens at 8, 13, 18 and 23,
/// hexadecimal digits elsewhere.
pub open spec fn is_execution_id(s: Seq<char>) -> bool {
    &&& s.len() == 36
    &&& forall|k: int|
        0 <= k < 36 ==> if k == 8 || k == 13 || k == 18 || k == 23 {
            #[trigger] s[k] == '-'
        } else {
            is_hex_digit(s[k])
        }
}

/// Relies on uuid::Uuid::new_v4 and its `Display` (hyphenated, lower-case hex)
/// to mint a random execution id.
#[verifier::external_body]
fn fresh_execution_id() -> (r: String)
    ensures
        is_execution_id(r@),
{
    uuid::Uuid::new_v4().to_string()
}

// Pieces of the unit submitted to the remote environment. Between them stand
// the execution id and the prepared snippet.
pub const WRAP_OPEN: &'static str = "
(function() {
    window.__tauriMcpResults = window.__tauriMcpResults || {};
    function __storeResult(success, data, error) {
        window.__tauriMcpResults['";

pub const WRAP_STORE: &'static str = "'] = { success: success, data: data, error: error };
        setTimeout(function() {
            if (window.__tauriMcpResults) { delete window.__tauriMcpResults['";

pub const WRAP_EXPIRE: &'static str = "']; }
        }, 10000);
    }
    function __sendResult(success, data, error) {
        __storeResult(success, data, error);
        const payload = { exec_id: '";

pub const WRAP_EMIT: &'static str = "', success: success, data: data, error: error };
        if (window.__TAURI__ && window.__TAURI__.event && window.__TAURI__.event.emit) {
            window.__TAURI__.event.emit('__tauri_mcp_script_result', payload);
            return;
        }
        if (window.__TAURI_INTERNALS__ && window.__TAURI_INTERNALS__.invoke) {
            window.__TAURI_INTERNALS__.invoke('plugin:event|emit', {
                event: '__tauri_mcp_script_result',
                payload: payload
            });
            return;
        }
        console.warn('[tauri-mcp] Event emission unavailable, using fallback polling');
    }
    (async () => {
        try {
            const __executeScript = async () => { ";

pub const WRAP_CLOSE: &'static str = " };
            const __result = await __executeScript();
            const __finalResult = __result instanceof Promise ? await __result : __result;
            __sendResult(true, __finalResult !== undefined ? __finalResult : null, null);
        } catch (error) {
            __sendResult(false, null, error.message || String(error));
        }
    })().catch(function(error) {
        __sendResult(false, null, error.message || String(error));
    });
})();
";

/// The unit submitted for execution `id` running `body`: it stores its
/// completion record under `id` (expiring after a grace period), then pushes it
/// through the first notification transport available.
pub open spec fn wrapped_script_text(id: Seq<char>, body: Seq<char>) -> Seq<char> {
    WRAP_OPEN@ + id + WRAP_STORE@ + id + WRAP_EXPIRE@ + id + WRAP_EMIT@ + body + WRAP_CLOSE@
}

/// Builds the unit that runs `body` under execution id `id`.
pub fn create_wrapped_script(id: &str, body: &str) -> (r: String)
    ensures
        r@ == wrapped_script_text(id@, body@),
{
    let r = String::from_str(WRAP_OPEN).concat(id).concat(WRAP_STORE).concat(id).concat(
        WRAP_EXPIRE,
    ).concat(id).concat(WRAP_EMIT).concat(body).concat(WRAP_CLOSE);
    r
}

pub const POLL_OPEN: &'static str = "(function() {
    var result = null;
    if (window.__tauriMcpResults && window.__tauriMcpResults['";

pub const POLL_READ: &'static str = "']) {
        result = window.__tauriMcpResults['";

pub const POLL_SCRATCH: &'static str = "'];
    }
    window['__poll_";

pub const POLL_CLOSE: &'static str = "'] = result;
})()";

/// The first half of a fallback poll for execution `id`: copies its stored
/// record, or `null`, into the scratch slot `__poll_<id>`.
pub open spec fn poll_script_text(id: Seq<char>) -> Seq<char> {
    POLL_OPEN@ + id + POLL_READ@ + id + POLL_SCRATCH@ + id + POLL_CLOSE@
}

/// Builds the first half of a fallback poll for execution `id`.
pub fn create_poll_script(id: &str) -> (r: String)
    ensures
        r@ == poll_script_text(id@),
{
    String::from_str(POLL_OPEN).concat(id).concat(POLL_READ).concat(id).concat(POLL_SCRATCH).concat(
        id,
    ).concat(POLL_CLOSE)
}

pub const RETRIEVE_OPEN: &'static str = "(function() {
    var r = window['__poll_";

pub const RETRIEVE_CLEAR: &'static str = "'];
    delete window['__poll_";

pub const RETRIEVE_EMIT: &'static str = "'];
    if (r) {
        var payload = { exec_id: '";

pub const RETRIEVE_CLOSE: &'static str = "', success: r.success, data: r.data, error: r.error };
        if (window.__TAURI__ && window.__TAURI__.event && window.__TAURI__.event.emit) {
            window.__TAURI__.event.emit('__tauri_mcp_script_result', payload);
        } else if (window.__TAURI_INTERNALS__ && window.__TAURI_INTERNALS__.invoke) {
            window.__TAURI_INTERNALS__.invoke('plugin:event|emit', {
                event: '__tauri_mcp_script_result',
                payload: payload
            });
        }
    }
})()";

/// The second half of a fallback poll for execution `id`: takes the scratch
/// slot and, when it holds a record, pushes it as a notification.
pub open spec fn retrieve_script_text(id: Seq<char>) -> Seq<char> {
    RETRIEVE_OPEN@ + id + RETRIEVE_CLEAR@ + id + RETRIEVE_EMIT@ + id + RETRIEVE_CLOSE@
}

/// Builds the second half of a fallback poll for execution `id`.
pub fn create_retrieve_script(id: &str) -> (r: String)
    ensures
        r@ == retrieve_script_text(id@),
{
    String::from_str(RETRIEVE_OPEN).concat(id).concat(RETRIEVE_CLEAR).concat(id).concat(
        RETRIEVE_EMIT,
    ).concat(id).concat(RETRIEVE_CLOSE)
}

pub const CLEANUP_OPEN: &'static str = "if (window.__tauriMcpResults) { delete window.__tauriMcpResults['";

pub const CLEANUP_CLOSE: &'static str = "']; }";

/// Deletes the stored record of execution `id`.
pub open spec fn cleanup_script_text(id: Seq<char>) -> Seq<char> {
    CLEANUP_OPEN@ + id + CLEANUP_CLOSE@
}

/// Builds the clean-up for execution `id`.
pub fn create_cleanup_script(id: &str) -> (r: String)
    ensures
        r@ == cleanup_script_text(id@),
{
    String::from_str(CLEANUP_OPEN).concat(id).concat(CLEANUP_CLOSE)
}

/// A remote-code call that has been set up and not yet submitted.
pub struct PendingExecution {
    /// The fresh execution id.
    pub exec_id: String,
    /// The unit to submit to the remote environment.
    pub script: String,
}

/// Starts a remote-code call for `script`: mints a fresh execution id and
/// wraps the prepared snippet under it.
pub fn begin_execution(script: &str) -> (r: PendingExecution)
    ensures
        is_execution_id(r.exec_id@),
        r.script@ == wrapped_script_text(r.exec_id@, prepared(script@)),
{
    let exec_id = fresh_execution_id();
    let body = prepare_script(script);
    let wrapped = create_wrapped_script(exec_id.as_str(), body.as_str());
    PendingExecution { exec_id, script: wrapped }
}


/// Error text when the remote environment refused the submitted unit, with
/// the refusal's own description.
pub fn submission_failed(detail: &str) -> (r: String)
    ensures
        r@ == "Script execution failed: "@ + detail@,
{
    String::from_str("Script execution failed: ").concat(detail)
}

/// A completion record pushed by the remote side.
pub struct ScriptResultPayload {
    /// Execution id the record belongs to.
    pub exec_id: String,
    /// Whether the snippet completed without throwing.
    pub success: bool,
    /// JSON text of the snippet's value, if it had one.
    pub data: Option<String>,
    /// Message of what the snippet threw, if anything.
    pub error: Option<String>,
}

/// How a remote call finished.
pub enum ScriptOutcome {
    /// The snippet's value, as JSON text.
    Value(String),
    /// The message of what the snippet threw.
    Thrown(String),
}

impl ScriptOutcome {
    /// The outcome with its text as a character sequence.
    pub open spec fn view(&self) -> Result<Seq<char>, Seq<char>> {
        match self {
            ScriptOutcome::Value(t) => Ok(t@),
            ScriptOutcome::Thrown(e) => Err(e@),
        }
    }
}

/// The outcome that record `p` reports: its data (`null` when it had none), or
/// its error (a generic message when it had none).
pub open spec fn payload_outcome(p: ScriptResultPayload) -> Result<Seq<char>, Seq<char>> {
    if p.success {
        Ok(
            match p.data {
                Some(d) => d@,
                None => "null"@,
            },
        )
    } else {
        Err(
            match p.error {
                Some(e) => e@,
                None => UNKNOWN_ERROR@,
            },
        )
    }
}

/// A listener waiting on `listener_id`, resolved or not, takes a record
/// carrying `payload_id`.
pub open spec fn delivers(listener_id: Seq<char>, resolved: bool, payload_id: Seq<char>) -> bool {
    !resolved && payload_id == listener_id
}

/// The listener of one remote call: it resolves the call at most once, and
/// only with a record carrying its own execution id.
pub struct ResultListener {
    /// The execution id listened for.
    pub exec_id: String,
    /// Whether a record has already been taken.
    pub resolved: bool,
}

impl ResultListener {
    /// A listener for execution `exec_id` that has taken nothing yet.
    pub fn new(exec_id: String) -> (r: Self)
        ensures
            r.exec_id@ == exec_id@,
            !r.resolved,
    {
        ResultListener { exec_id, resolved: false }
    }

    /// Offers a pushed record to the listener. It yields the record's outcome
    /// when the ids match and nothing was taken before; otherwise nothing.
    pub fn on_notification(&mut self, payload: ScriptResultPayload) -> (r: Option<ScriptOutcome>)
        ensures
            final(self).exec_id@ == old(self).exec_id@,
            r is Some <==> delivers(old(self).exec_id@, old(self).resolved, payload.exec_id@),
            final(self).resolved == (old(self).resolved || r is Some),
            r matches Some(o) ==> o@ == payload_outcome(payload),
    {
        if self.resolved || !same_text(payload.exec_id.as_str(), self.exec_id.as_str()) {
            return None;
        }
        self.resolved = true;
        if payload.success {
            match payload.data {
                Some(d) => Some(ScriptOutcome::Value(d)),
                None => Some(ScriptOutcome::Value(String::from_str("null"))),
            }
        } else {
            match payload.error {
                Some(e) => Some(ScriptOutcome::Thrown(e)),
                None => Some(ScriptOutcome::Thrown(String::from_str(UNKNOWN_ERROR))),
            }
        }
    }
}

/// Records carrying another execution id never resolve a call, a listener
/// that has resolved takes nothing more, and no record resolves two calls with
/// distinct ids.
pub proof fn law_execution_isolation(a: Seq<char>, b: Seq<char>, p: Seq<char>, resolved: bool)
    requires
        a != b,
    ensures
        p != a ==> !delivers(a, resolved, p),
        !delivers(a, true, p),
        !(delivers(a, resolved, p) && delivers(b, resolved, p)),
{
}

/// Error text of a call whose deadline of `secs` seconds passed.
pub open spec fn timeout_message(secs: nat) -> Seq<char> {
    "Script execution timeout after "@ + decimal(secs) + "s"@
}

/// The caller-facing result of a finished call: its value, or its error
/// behind `Script error: `.
pub open spec fn call_result(o: Result<Seq<char>, Seq<char>>) -> Result<Seq<char>, Seq<char>> {
    match o {
        Ok(t) => Ok(t),
        Err(e) => Err("Script error: "@ + e),
    }
}

/// Views a result of two strings as character sequences.
pub open spec fn result_view(r: Result<String, String>) -> Result<Seq<char>, Seq<char>> {
    match r {
        Ok(t) => Ok(t@),
        Err(e) => Err(e@),
    }
}

/// Bounds of the wait for one remote call.
#[derive(Debug, Clone, Copy, PartialEq, Eq, Structural)]
pub struct WaitPlan {
    /// Execution deadline, in seconds after submission.
    pub timeout_secs: u64,
    /// Interval between fallback polls, in milliseconds.
    pub poll_interval_ms: u64,
}

impl WaitPlan {
    /// The deadline in milliseconds.
    pub open spec fn deadline_ms(self) -> int {
        self.timeout_secs * 1000
    }
}

/// What the notification slot of a call holds when looked at.
pub enum SlotState {
    /// An outcome arrived.
    Resolved(ScriptOutcome),
    /// The channel was torn down without one.
    Closed,
    /// Nothing yet.
    Empty,
}

/// The next thing the waiting side does.
pub enum WaitStep {
    /// Stop waiting with this result.
    Done(Result<String, String>),
    /// Ask the remote side to re-emit the stored record (the poll and retrieve
    /// scripts), then wait.
    Poll,
    /// Wait for the slot, or for this many milliseconds, whichever comes first.
    Sleep(u64),
}

/// A view of [`WaitStep`] with character sequences.
pub enum WaitStepView {
    Done(Result<Seq<char>, Seq<char>>),
    Poll,
    Sleep(nat),
}

impl WaitStep {
    pub open spec fn view(&self) -> WaitStepView {
        match self {
            WaitStep::Done(r) => WaitStepView::Done(result_view(*r)),
            WaitStep::Poll => WaitStepView::Poll,
            WaitStep::Sleep(ms) => WaitStepView::Sleep(*ms as nat),
        }
    }
}

/// What a slot in state `s` settles, if anything.
pub open spec fn settled(s: SlotState) -> Option<Result<Seq<char>, Seq<char>>> {
    match s {
        SlotState::Resolved(o) => Some(call_result(o@)),
        SlotState::Closed => Some(Err(CHANNEL_CLOSED@)),
        SlotState::Empty => None,
    }
}

/// The check made at the head of each round, `elapsed_ms` after submission:
/// past the deadline the call fails; otherwise a settled slot ends the wait,
/// and an empty one asks for a poll.
pub open spec fn check_step_spec(plan: WaitPlan, elapsed_ms: nat, s: SlotState) -> WaitStepView {
    if elapsed_ms >= plan.deadline_ms() {
        WaitStepView::Done(Err(timeout_message(plan.timeout_secs as nat)))
    } else {
        match settled(s) {
            Some(r) => WaitStepView::Done(r),
            None => WaitStepView::Poll,
        }
    }
}

/// The wait after a poll, `elapsed_ms` after submission: one poll interval,
/// cut short at the deadline; none left means the call fails.
pub open spec fn sleep_step_spec(plan: WaitPlan, elapsed_ms: nat) -> WaitStepView {
    let remaining = if elapsed_ms < plan.deadline_ms() {
        plan.deadline_ms() - elapsed_ms
    } else {
        0
    };
    let d = if plan.poll_interval_ms < remaining {
        plan.poll_interval_ms as int
    } else {
        remaining
    };
    if d > 0 {
        WaitStepView::Sleep(d as nat)
    } else {
        WaitStepView::Done(Err(timeout_message(plan.timeout_secs as nat)))
    }
}

fn timeout_error(secs: u64) -> (r: String)
    ensures
        r@ == timeout_message(secs as nat),
{
    String::from_str("Script execution timeout after ").concat(decimal_text(secs).as_str()).concat(
        "s",
    )
}

/// What a slot in state `s` settles, if anything.
pub fn settle(s: SlotState) -> (r: Option<Result<String, String>>)
    ensures
        match r {
            Some(x) => settled(s) == Some(result_view(x)),
            None => settled(s) is None,
        },
{
    match s {
        SlotState::Resolved(ScriptOutcome::Value(t)) => Some(Ok(t)),
        SlotState::Resolved(ScriptOutcome::Thrown(e)) => Some(
            Err(String::from_str("Script error: ").concat(e.as_str())),
        ),
        SlotState::Closed => Some(Err(String::from_str(CHANNEL_CLOSED))),
        SlotState::Empty => None,
    }
}

/// The check at the head of a round (see [`check_step_spec`]).
pub fn check_step(plan: WaitPlan, elapsed_ms: u64, s: SlotState) -> (r: WaitStep)
    ensures
        r@ == check_step_spec(plan, elapsed_ms as nat, s),
        r is Done || r is Poll,
{
    if (elapsed_ms as u128) >= (plan.timeout_secs as u128) * 1000 {
        return WaitStep::Done(Err(timeout_error(plan.timeout_secs)));
    }
    match settle(s) {
        Some(x) => WaitStep::Done(x),
        None => WaitStep::Poll,
    }
}

/// The wait after a poll (see [`sleep_step_spec`]).
pub fn sleep_step(plan: WaitPlan, elapsed_ms: u64) -> (r: WaitStep)
    ensures
        r@ == sleep_step_spec(plan, elapsed_ms as nat),
        r is Done || r is Sleep,
{
    let deadline: u128 = (plan.timeout_secs as u128) * 1000;
    let remaining: u128 = if (elapsed_ms as u128) < deadline {
        deadline - elapsed_ms as u128
    } else {
        0
    };
    let d: u64 = if (plan.poll_interval_ms as u128) < remaining {
        plan.poll_interval_ms
    } else {
        remaining as u64
    };
    if d > 0 {
        WaitStep::Sleep(d)
    } else {
        WaitStep::Done(Err(timeout_error(plan.timeout_secs)))
    }
}

/// The deadline is kept exactly: a call fails for time at the head of a round
/// exactly when the deadline has passed; no wait after a poll runs past the
/// deadline or lasts longer than one poll interval; and, with a positive poll
/// interval, a wait is refused only once the deadline has been reached.
pub proof fn law_deadline_kept(plan: WaitPlan, elapsed_ms: nat, s: SlotState)
    ensures
        (check_step_spec(plan, elapsed_ms, s) == WaitStepView::Done(
            Err(timeout_message(plan.timeout_secs as nat)),
        )) <== elapsed_ms >= plan.deadline_ms(),
        elapsed_ms < plan.deadline_ms() ==> check_step_spec(plan, elapsed_ms, s) == match settled(s) {
            Some(r) => WaitStepView::Done(r),
            None => WaitStepView::Poll,
        },
        sleep_step_spec(plan, elapsed_ms) matches WaitStepView::Sleep(d) ==> elapsed_ms + d
            <= plan.deadline_ms() && d <= plan.poll_interval_ms && d > 0,
        plan.poll_interval_ms > 0 && !(sleep_step_spec(plan, elapsed_ms) is Sleep) ==> elapsed_ms
            >= plan.deadline_ms(),
{
}

/// The fallback poll keeps going while nothing has arrived: before the
/// deadline, an empty slot always leads to a poll, followed by a wait of at
/// most one poll interval, so a result stored on the remote side is picked up
/// within one poll interval even when no notification is ever pushed.
pub proof fn law_fallback_poll(plan: WaitPlan, elapsed_ms: nat, later_ms: nat)
    requires
        elapsed_ms < plan.deadline_ms(),
    ensures
        check_step_spec(plan, elapsed_ms, SlotState::Empty) == WaitStepView::Poll,
        sleep_step_spec(plan, later_ms) matches WaitStepView::Sleep(d) ==> d
            <= plan.poll_interval_ms,
{
}

} // verus!
