//! What each command asks for, from its arguments: which remote snippet to
//! run and with what deadline, which surface action to take, or which
//! argument is missing or malformed.

use vstd::prelude::*;
use vstd::string::StringExecFns;

use crate::correlator::DEFAULT_TIMEOUT_SECS;
use crate::dispatch::{
    command_name, command_named, law_unknown_command_lists_all, law_unknown_selector, mentions,
    not_found_message, opt_string, parse_command, resolve_target, resolved_target,
    unknown_command_message, Command, Surface,
};
use crate::json::{json_string, quote_json};
use crate::protocol::WindowContext;
use crate::text::{decimal, decimal_text, same_text};

verus! {

broadcast use vstd::string::group_string_axioms;

/// A numeric argument as it arrived.
#[derive(Debug, Clone)]
pub enum NumberArg {
    /// Not given.
    Missing,
    /// A non-negative integer.
    Unsigned(u64),
    /// Anything else, as JSON text.
    Other(String),
}

/// The arguments of a command, as plain values. A field is `None` when the
/// argument is absent or not of the expected JSON type.
#[derive(Debug, Clone)]
pub struct CommandArgs {
    /// `windowId`: the target selector.
    pub window_id: Option<String>,
    /// `script`: the snippet to run.
    pub script: Option<String>,
    /// `timeout`: seconds for `execute_js`, milliseconds for `wait_for`.
    pub timeout: Option<u64>,
    /// `filter` for `console_logs`.
    pub filter: Option<String>,
    /// `since` for `console_logs`.
    pub since: Option<String>,
    /// `clear` for `console_logs`.
    pub clear: Option<bool>,
    /// `type` for `dom_snapshot`.
    pub snapshot_type: Option<String>,
    /// `selector` for `dom_snapshot`.
    pub selector: Option<String>,
    /// `action` for `interact`.
    pub action: Option<String>,
    /// `format` for `screenshot`.
    pub format: Option<String>,
    /// `quality` for `screenshot`.
    pub quality: Option<u64>,
    /// `width` for `window_resize`.
    pub width: NumberArg,
    /// `height` for `window_resize`.
    pub height: NumberArg,
    /// All the arguments, as JSON text.
    pub json: String,
}

impl CommandArgs {
    /// Arguments with nothing set, whose JSON text is `json`.
    pub fn new(json: String) -> (r: Self)
        ensures
            r.json@ == json@,
            r.window_id is None && r.script is None && r.timeout is None && r.filter is None,
            r.since is None && r.clear is None && r.snapshot_type is None && r.selector is None,
            r.action is None && r.format is None && r.quality is None,
            r.width is Missing && r.height is Missing,
    {
        CommandArgs {
            window_id: None,
            script: None,
            timeout: None,
            filter: None,
            since: None,
            clear: None,
            snapshot_type: None,
            selector: None,
            action: None,
            format: None,
            quality: None,
            width: NumberArg::Missing,
            height: NumberArg::Missing,
            json,
        }
    }
}

/// Helper scripts installed in the remote environment next to the snippet
/// that calls them.
#[derive(Debug, Clone, Copy, PartialEq, Eq, Structural)]
pub enum Helper {
    DomSnapshot,
    Interact,
    WaitFor,
}

/// The work a command asks for.
#[derive(Debug, Clone)]
pub enum Plan {
    /// Capture the surface as an image.
    Screenshot { format: String, quality: Option<u8> },
    /// Run a snippet through the correlator.
    RunScript { script: String, timeout_secs: u64 },
    /// Run a helper script followed by `call`, through the correlator.
    RunHelper { helper: Helper, call: String, timeout_secs: u64 },
    /// Describe every surface.
    ListWindows,
    /// Describe the target surface.
    WindowInfo,
    /// Resize the target surface.
    Resize { width: u32, height: u32 },
}

/// A view of [`Plan`] with character sequences.
pub enum PlanView {
    Screenshot(Seq<char>, Option<u8>),
    RunScript(Seq<char>, u64),
    RunHelper(Helper, Seq<char>, u64),
    ListWindows,
    WindowInfo,
    Resize(u32, u32),
}

impl Plan {
    pub open spec fn view(&self) -> PlanView {
        match self {
            Plan::Screenshot { format, quality } => PlanView::Screenshot(format@, *quality),
            Plan::RunScript { script, timeout_secs } => PlanView::RunScript(script@, *timeout_secs),
            Plan::RunHelper { helper, call, timeout_secs } => PlanView::RunHelper(
                *helper,
                call@,
                *timeout_secs,
            ),
            Plan::ListWindows => PlanView::ListWindows,
            Plan::WindowInfo => PlanView::WindowInfo,
            Plan::Resize { width, height } => PlanView::Resize(*width, *height),
        }
    }
}

/// A string argument as a JSON literal for a snippet, `null` when absent.
pub open spec fn arg_literal(o: Option<Seq<char>>) -> Seq<char> {
    match o {
        Some(t) => json_string(t),
        None => "null"@,
    }
}

pub const CONSOLE_OPEN: &'static str = "
(function() {
    if (!window.__tauriMcpConsole) {
        return { error: 'Console capture not initialized' };
    }
    const logs = window.__tauriMcpConsole.getLogs(";

pub const CONSOLE_CLEAR: &'static str = "window.__tauriMcpConsole.clear();";

pub const CONSOLE_CLOSE: &'static str = "
    return logs;
})()
";

/// The snippet that reads the captured console output, filtered by the JSON
/// literals `filter` and `since`, and clears it afterwards if asked.
pub open spec fn console_script_text(filter: Seq<char>, since: Seq<char>, clear: bool) -> Seq<char> {
    CONSOLE_OPEN@ + filter + ", "@ + since + ");\n    "@ + (if clear {
        CONSOLE_CLEAR@
    } else {
        Seq::empty()
    }) + CONSOLE_CLOSE@
}

/// Deadline of `wait_for`: its own timeout in whole seconds (at least one),
/// plus two seconds for the remote side's own timer.
pub open spec fn wait_for_secs(timeout_ms: Option<u64>) -> nat {
    match timeout_ms {
        Some(ms) => (if ms / 1000 >= 1 {
            ms / 1000
        } else {
            1
        }) as nat + 2,
        None => DEFAULT_TIMEOUT_SECS as nat + 2,
    }
}

/// Checks a numeric argument named `name`: the message for a missing or
/// malformed one, or its value.
pub open spec fn number_arg(a: NumberArg, name: Seq<char>) -> Result<u64, Seq<char>> {
    match a {
        NumberArg::Missing => Err("Missing required '"@ + name + "' argument"@),
        NumberArg::Unsigned(n) => Ok(n),
        NumberArg::Other(t) => Err("'"@ + name + "' must be a positive integer, got: "@ + t@),
    }
}

/// What command `c` asks for with arguments `a`.
pub open spec fn plan_spec(c: Command, a: CommandArgs) -> Result<PlanView, Seq<char>> {
    match c {
        Command::Screenshot => Ok(
            PlanView::Screenshot(
                match a.format {
                    Some(f) => f@,
                    None => "png"@,
                },
                match a.quality {
                    Some(q) => Some(
                        (if q <= 100 {
                            q
                        } else {
                            100
                        }) as u8,
                    ),
                    None => None,
                },
            ),
        ),
        Command::ExecuteJs => match a.script {
            Some(s) => Ok(
                PlanView::RunScript(
                    s@,
                    match a.timeout {
                        Some(t) => t,
                        None => DEFAULT_TIMEOUT_SECS,
                    },
                ),
            ),
            None => Err("Missing required 'script' argument"@),
        },
        Command::ConsoleLogs => Ok(
            PlanView::RunScript(
                console_script_text(
                    arg_literal(opt_string(a.filter)),
                    arg_literal(opt_string(a.since)),
                    a.clear == Some(true),
                ),
                DEFAULT_TIMEOUT_SECS,
            ),
        ),
        Command::DomSnapshot => {
            let t = match a.snapshot_type {
                Some(t) => t@,
                None => "accessibility"@,
            };
            if t != "accessibility"@ && t != "structure"@ {
                Err(
                    "Invalid snapshot type: '"@ + t
                        + "'. Use 'accessibility' or 'structure'."@,
                )
            } else {
                Ok(
                    PlanView::RunHelper(
                        Helper::DomSnapshot,
                        "window.__tauriMcpDomSnapshot('"@ + t + "', "@ + arg_literal(
                            opt_string(a.selector),
                        ) + ")"@,
                        DEFAULT_TIMEOUT_SECS,
                    ),
                )
            }
        },
        Command::Interact => match a.action {
            Some(_) => Ok(
                PlanView::RunHelper(
                    Helper::Interact,
                    "window.__tauriMcpInteract("@ + a.json@ + ")"@,
                    DEFAULT_TIMEOUT_SECS,
                ),
            ),
            None => Err("Missing required 'action' argument"@),
        },
        Command::WaitFor => Ok(
            PlanView::RunHelper(
                Helper::WaitFor,
                "window.__tauriMcpWaitFor("@ + a.json@ + ")"@,
                wait_for_secs(a.timeout) as u64,
            ),
        ),
        Command::WindowList => Ok(PlanView::ListWindows),
        Command::WindowInfo => Ok(PlanView::WindowInfo),
        Command::WindowResize => match number_arg(a.width, "width"@) {
            Err(e) => Err(e),
            Ok(w) => match number_arg(a.height, "height"@) {
                Err(e) => Err(e),
                Ok(h) => Ok(PlanView::Resize(w as u32, h as u32)),
            },
        },
    }
}

fn literal_arg(o: &Option<String>) -> (r: String)
    ensures
        r@ == arg_literal(opt_string(*o)),
{
    match o {
        Some(t) => quote_json(t.as_str()),
        None => String::from_str("null"),
    }
}

fn check_number(a: &NumberArg, name: &str) -> (r: Result<u64, String>)
    ensures
        match r {
            Ok(n) => number_arg(*a, name@) == Ok::<u64, Seq<char>>(n),
            Err(e) => number_arg(*a, name@) == Err::<u64, Seq<char>>(e@),
        },
{
    match a {
        NumberArg::Missing => Err(
            String::from_str("Missing required '").concat(name).concat("' argument"),
        ),
        NumberArg::Unsigned(n) => Ok(*n),
        NumberArg::Other(t) => Err(
            String::from_str("'").concat(name).concat("' must be a positive integer, got: ").concat(
                t.as_str(),
            ),
        ),
    }
}

/// The snippet that reads the captured console output.
pub fn console_logs_script(args: &CommandArgs) -> (r: String)
    ensures
        r@ == console_script_text(
            arg_literal(opt_string(args.filter)),
            arg_literal(opt_string(args.since)),
            args.clear == Some(true),
        ),
{
    let filter = literal_arg(&args.filter);
    let since = literal_arg(&args.since);
    let clear = match args.clear {
        Some(b) => b,
        None => false,
    };
    let head = String::from_str(CONSOLE_OPEN).concat(filter.as_str()).concat(", ").concat(
        since.as_str(),
    ).concat(");\n    ");
    let r = if clear {
        head.concat(CONSOLE_CLEAR).concat(CONSOLE_CLOSE)
    } else {
        head.concat(CONSOLE_CLOSE)
    };
    assert(r@ =~= console_script_text(
        arg_literal(opt_string(args.filter)),
        arg_literal(opt_string(args.since)),
        args.clear == Some(true),
    ));
    r
}

/// `execute_js`: runs the `script` argument, with the `timeout` argument in
/// seconds (five by default).
pub fn execute(args: &CommandArgs) -> (r: Result<Plan, String>)
    ensures
        match r {
            Ok(p) => plan_spec(Command::ExecuteJs, *args) == Ok::<PlanView, Seq<char>>(p@),
            Err(e) => plan_spec(Command::ExecuteJs, *args) == Err::<PlanView, Seq<char>>(e@),
        },
{
    match &args.script {
        Some(s) => {
            let timeout_secs = match args.timeout {
                Some(t) => t,
                None => DEFAULT_TIMEOUT_SECS,
            };
            Ok(Plan::RunScript { script: s.clone(), timeout_secs })
        },
        None => Err(String::from_str("Missing required 'script' argument")),
    }
}

/// `console_logs`: reads the captured console output.
pub fn console_logs(args: &CommandArgs) -> (r: Plan)
    ensures
        plan_spec(Command::ConsoleLogs, *args) == Ok::<PlanView, Seq<char>>(r@),
{
    Plan::RunScript { script: console_logs_script(args), timeout_secs: DEFAULT_TIMEOUT_SECS }
}

/// `dom_snapshot`: a snapshot of type `accessibility` (the default) or
/// `structure`, optionally below `selector`.
pub fn dom_snapshot(args: &CommandArgs) -> (r: Result<Plan, String>)
    ensures
        match r {
            Ok(p) => plan_spec(Command::DomSnapshot, *args) == Ok::<PlanView, Seq<char>>(p@),
            Err(e) => plan_spec(Command::DomSnapshot, *args) == Err::<PlanView, Seq<char>>(e@),
        },
{
    let t = match &args.snapshot_type {
        Some(t) => t.clone(),
        None => String::from_str("accessibility"),
    };
    if !same_text(t.as_str(), "accessibility") && !same_text(t.as_str(), "structure") {
        return Err(
            String::from_str("Invalid snapshot type: '").concat(t.as_str()).concat(
                "'. Use 'accessibility' or 'structure'.",
            ),
        );
    }
    let selector = literal_arg(&args.selector);
    let call = String::from_str("window.__tauriMcpDomSnapshot('").concat(t.as_str()).concat(
        "', ",
    ).concat(selector.as_str()).concat(")");
    Ok(Plan::RunHelper { helper: Helper::DomSnapshot, call, timeout_secs: DEFAULT_TIMEOUT_SECS })
}

/// `interact`: hands all the arguments to the interaction helper; `action`
/// is required.
pub fn interact(args: &CommandArgs) -> (r: Result<Plan, String>)
    ensures
        match r {
            Ok(p) => plan_spec(Command::Interact, *args) == Ok::<PlanView, Seq<char>>(p@),
            Err(e) => plan_spec(Command::Interact, *args) == Err::<PlanView, Seq<char>>(e@),
        },
{
    match &args.action {
        Some(_) => {
            let call = String::from_str("window.__tauriMcpInteract(").concat(
                args.json.as_str(),
            ).concat(")");
            Ok(Plan::RunHelper { helper: Helper::Interact, call, timeout_secs: DEFAULT_TIMEOUT_SECS })
        },
        None => Err(String::from_str("Missing required 'action' argument")),
    }
}

/// `wait_for`: hands all the arguments to the waiting helper, with a deadline
/// from its `timeout` in milliseconds (see [`wait_for_secs`]).
pub fn wait_for(args: &CommandArgs) -> (r: Plan)
    ensures
        plan_spec(Command::WaitFor, *args) == Ok::<PlanView, Seq<char>>(r@),
{
    let secs: u64 = match args.timeout {
        Some(ms) => if ms / 1000 >= 1 {
            ms / 1000
        } else {
            1
        },
        None => DEFAULT_TIMEOUT_SECS,
    };
    let call = String::from_str("window.__tauriMcpWaitFor(").concat(args.json.as_str()).concat(")");
    Plan::RunHelper { helper: Helper::WaitFor, call, timeout_secs: secs + 2 }
}

/// `window_resize`: `width` then `height` must be non-negative integers; each
/// is cut to its low 32 bits.
pub fn resize(args: &CommandArgs) -> (r: Result<Plan, String>)
    ensures
        match r {
            Ok(p) => plan_spec(Command::WindowResize, *args) == Ok::<PlanView, Seq<char>>(p@),
            Err(e) => plan_spec(Command::WindowResize, *args) == Err::<PlanView, Seq<char>>(e@),
        },
{
    let w = match check_number(&args.width, "width") {
        Ok(n) => n,
        Err(e) => return Err(e),
    };
    let h = match check_number(&args.height, "height") {
        Ok(n) => n,
        Err(e) => return Err(e),
    };
    Ok(Plan::Resize { width: w as u32, height: h as u32 })
}

/// `screenshot`: `format` (`png` by default) and `quality` capped at 100.
pub fn screenshot(args: &CommandArgs) -> (r: Plan)
    ensures
        plan_spec(Command::Screenshot, *args) == Ok::<PlanView, Seq<char>>(r@),
{
    let format = match &args.format {
        Some(f) => f.clone(),
        None => String::from_str("png"),
    };
    let quality = match args.quality {
        Some(q) => Some(
            if q <= 100 {
                q as u8
            } else {
                100u8
            },
        ),
        None => None,
    };
    Plan::Screenshot { format, quality }
}

/// What command `c` asks for with arguments `args` (see [`plan_spec`]).
pub fn plan_command(c: Command, args: &CommandArgs) -> (r: Result<Plan, String>)
    ensures
        match r {
            Ok(p) => plan_spec(c, *args) == Ok::<PlanView, Seq<char>>(p@),
            Err(e) => plan_spec(c, *args) == Err::<PlanView, Seq<char>>(e@),
        },
{
    match c {
        Command::Screenshot => Ok(screenshot(args)),
        Command::ExecuteJs => execute(args),
        Command::ConsoleLogs => Ok(console_logs(args)),
        Command::DomSnapshot => dom_snapshot(args),
        Command::Interact => interact(args),
        Command::WaitFor => Ok(wait_for(args)),
        Command::WindowList => Ok(Plan::ListWindows),
        Command::WindowInfo => Ok(Plan::WindowInfo),
        Command::WindowResize => resize(args),
    }
}

/// What the dispatcher makes of a request: the index of the surface that
/// serves it and the plan of work, or the error reported to the client.
/// Resolving the target comes first, then the command name, then its
/// arguments.
pub open spec fn dispatch_spec(command: Seq<char>, args: CommandArgs, s: Seq<Surface>) -> Result<
    (int, PlanView),
    Seq<char>,
> {
    match resolved_target(s, opt_string(args.window_id)) {
        Err(e) => Err(e),
        Ok(i) => match command_named(command) {
            None => Err(unknown_command_message(command)),
            Some(c) => match plan_spec(c, args) {
                Err(e) => Err(e),
                Ok(p) => Ok((i, p)),
            },
        },
    }
}

/// A request whose command name is unknown fails, once its target resolves,
/// with the error that lists every valid command name.
pub proof fn law_unknown_command(command: Seq<char>, args: CommandArgs, s: Seq<Surface>)
    requires
        command_named(command) is None,
        resolved_target(s, opt_string(args.window_id)) is Ok,
    ensures
        dispatch_spec(command, args, s) == Err::<(int, PlanView), Seq<char>>(
            unknown_command_message(command),
        ),
        forall|c: Command| mentions(unknown_command_message(command), #[trigger] command_name(c)),
{
    law_unknown_command_lists_all(command);
}

/// A request whose target selector names none of the available surfaces fails
/// with the error that lists every available label.
pub proof fn law_unknown_target(command: Seq<char>, args: CommandArgs, s: Seq<Surface>)
    requires
        s.len() > 0,
        args.window_id is Some,
        forall|i: int| 0 <= i < s.len() ==> (#[trigger] s[i]).label@ != args.window_id->0@,
    ensures
        dispatch_spec(command, args, s) == Err::<(int, PlanView), Seq<char>>(
            not_found_message(args.window_id->0@, s),
        ),
{
    law_unknown_selector(s, args.window_id->0@);
}

/// A dispatched request.
pub struct Dispatch {
    /// Index of the serving surface.
    pub target: usize,
    /// What the response reports about the serving surface.
    pub context: WindowContext,
    /// The work to do.
    pub plan: Plan,
}

/// Dispatches `command` with `args` over the available `surfaces` (see
/// [`dispatch_spec`]).
pub fn dispatch(command: &str, args: &CommandArgs, surfaces: &Vec<Surface>) -> (r: Result<
    Dispatch,
    String,
>)
    ensures
        match r {
            Ok(d) => {
                &&& dispatch_spec(command@, *args, surfaces@) == Ok::<(int, PlanView), Seq<char>>(
                    (d.target as int, d.plan@),
                )
                &&& d.target < surfaces.len()
                &&& d.context.window_label@ == surfaces@[d.target as int].label@
                &&& d.context.total_windows == surfaces.len()
            },
            Err(e) => dispatch_spec(command@, *args, surfaces@) == Err::<(int, PlanView), Seq<char>>(
                e@,
            ),
        },
{
    let selector = match &args.window_id {
        Some(w) => Some(w.as_str()),
        None => None,
    };
    let target = match resolve_target(surfaces, selector) {
        Ok(i) => i,
        Err(e) => return Err(e),
    };
    let c = match parse_command(command) {
        Ok(c) => c,
        Err(e) => return Err(e),
    };
    let plan = match plan_command(c, args) {
        Ok(p) => p,
        Err(e) => return Err(e),
    };
    let context = WindowContext {
        window_label: surfaces[target].label.clone(),
        total_windows: surfaces.len(),
    };
    Ok(Dispatch { target, context, plan })
}

/// MIME type of a capture in `format`.
pub open spec fn mime_type(format: Seq<char>) -> Seq<char> {
    if format == "jpeg"@ || format == "jpg"@ {
        "image/jpeg"@
    } else {
        "image/png"@
    }
}

/// The result of `screenshot`: a data URL of the base64 image, as JSON text.
pub fn screenshot_result(format: &str, image_base64: &str) -> (r: String)
    ensures
        r@ == json_string("data:"@ + mime_type(format@) + ";base64,"@ + image_base64@),
{
    let mime = if same_text(format, "jpeg") || same_text(format, "jpg") {
        "image/jpeg"
    } else {
        "image/png"
    };
    let url = String::from_str("data:").concat(mime).concat(";base64,").concat(image_base64);
    quote_json(url.as_str())
}

/// The result of `window_resize`, as JSON text.
pub fn resize_result(width: u32, height: u32) -> (r: String)
    ensures
        r@ == json_string("Resized to "@ + decimal(width as nat) + "x"@ + decimal(height as nat)),
{
    let text = String::from_str("Resized to ").concat(decimal_text(width as u64).as_str()).concat(
        "x",
    ).concat(decimal_text(height as u64).as_str());
    quote_json(text.as_str())
}

} // verus!
