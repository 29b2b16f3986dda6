//! The wire envelope: one JSON document per message, a response for each
//! request, and the command timeout that bounds each dispatch.

use vstd::prelude::*;
use vstd::string::StringExecFns;

use crate::json::{
    bool_json, bool_text, has_key, json_string, object_text, quote_json, ObjectWriter,
};
use crate::text::{decimal, decimal_text, decimal_text_wide, parse_u64, parsed_u64};

verus! {

broadcast use vstd::string::group_string_axioms;

/// Command timeout when none is configured, in milliseconds.
pub const DEFAULT_COMMAND_TIMEOUT_MS: u64 = 10000;

/// Which target surface served a request.
#[derive(Debug, Clone)]
pub struct WindowContext {
    /// Label of the surface that handled the request.
    pub window_label: String,
    /// Number of surfaces available.
    pub total_windows: usize,
}

/// The reply to one request. `data` holds JSON text; absent fields are left
/// out of the wire form.
#[derive(Debug, Clone)]
pub struct Response {
    /// The request's id (empty when the request could not be read).
    pub id: String,
    /// Whether the command succeeded.
    pub success: bool,
    /// The command's result, as JSON text.
    pub data: Option<String>,
    /// What went wrong.
    pub error: Option<String>,
    /// The surface that served the request.
    pub window_context: Option<WindowContext>,
}

/// Members of the wire form of a [`WindowContext`].
pub open spec fn context_members(c: WindowContext) -> Seq<(Seq<char>, Seq<char>)> {
    seq![
        ("targetLabel"@, json_string(c.window_label@)),
        ("totalTargets"@, decimal(c.total_windows as nat)),
    ]
}

/// Members of the wire form of a [`Response`]: `id` and `success`, then each
/// optional field that is present, in order.
pub open spec fn response_members(r: Response) -> Seq<(Seq<char>, Seq<char>)> {
    seq![("id"@, json_string(r.id@)), ("success"@, bool_text(r.success))] + match r.data {
        Some(d) => seq![("data"@, d@)],
        None => Seq::empty(),
    } + match r.error {
        Some(e) => seq![("error"@, json_string(e@))],
        None => Seq::empty(),
    } + match r.window_context {
        Some(c) => seq![("context"@, object_text(context_members(c)))],
        None => Seq::empty(),
    }
}

impl WindowContext {
    /// The wire form of the context.
    pub fn to_json(&self) -> (r: String)
        ensures
            r@ == object_text(context_members(*self)),
    {
        let mut w = ObjectWriter::new();
        let label = quote_json(self.window_label.as_str());
        w.member("targetLabel", label.as_str());
        let total = decimal_text_wide(self.total_windows as u128);
        w.member("totalTargets", total.as_str());
        let r = w.finish();
        assert(w.members@ =~= context_members(*self));
        r
    }
}

impl Response {
    /// The wire form of the response.
    pub fn to_json(&self) -> (r: String)
        ensures
            r@ == object_text(response_members(*self)),
    {
        let mut w = ObjectWriter::new();
        let id = quote_json(self.id.as_str());
        w.member("id", id.as_str());
        w.member("success", bool_json(self.success));
        match &self.data {
            Some(d) => w.member("data", d.as_str()),
            None => {},
        }
        match &self.error {
            Some(e) => {
                let q = quote_json(e.as_str());
                w.member("error", q.as_str());
            },
            None => {},
        }
        match &self.window_context {
            Some(c) => {
                let t = c.to_json();
                w.member("context", t.as_str());
            },
            None => {},
        }
        let r = w.finish();
        assert(w.members@ =~= response_members(*self));
        r
    }
}

/// The wire form of a response holds an `id` member with the request's id,
/// and holds a `data`, `error` or `context` member exactly when that field is
/// present: an absent field is no key at all, never a `null`.
pub proof fn law_response_members(r: Response)
    ensures
        response_members(r)[0] == ("id"@, json_string(r.id@)),
        has_key(response_members(r), "data"@) <==> r.data is Some,
        has_key(response_members(r), "error"@) <==> r.error is Some,
        has_key(response_members(r), "context"@) <==> r.window_context is Some,
{
    reveal_strlit("id");
    reveal_strlit("success");
    reveal_strlit("data");
    reveal_strlit("error");
    reveal_strlit("context");
    let ms = response_members(r);
    let keys: Seq<Seq<char>> = seq!["id"@, "success"@, "data"@, "error"@, "context"@];
    assert("data"@ != "id"@ && "data"@ != "success"@ && "data"@ != "error"@ && "data"@
        != "context"@) by {
        assert("data"@[0] != "id"@[0]);
        assert("data"@[0] != "success"@[0]);
        assert("data"@[0] != "error"@[0]);
        assert("data"@[0] != "context"@[0]);
    }
    assert("error"@ != "id"@ && "error"@ != "success"@ && "error"@ != "context"@) by {
        assert("error"@[0] != "id"@[0]);
        assert("error"@[0] != "success"@[0]);
        assert("error"@[0] != "context"@[0]);
    }
    assert("context"@ != "id"@ && "context"@ != "success"@) by {
        assert("context"@[0] != "id"@[0]);
        assert("context"@[0] != "success"@[0]);
    }
    if r.data is Some {
        assert(ms[2].0 == "data"@);
    }
    if r.error is Some {
        let i = if r.data is Some { 3int } else { 2int };
        assert(ms[i].0 == "error"@);
    }
    if r.window_context is Some {
        let i = 2 + (if r.data is Some { 1int } else { 0int }) + (if r.error is Some { 1int } else { 0int });
        assert(ms[i].0 == "context"@);
    }
}

/// How a dispatch ended.
pub enum DispatchOutcome {
    /// The command produced `data` (JSON text), served by `context`.
    Completed(String, Option<WindowContext>),
    /// The command failed with this message.
    Failed(String),
    /// The command did not finish within its budget of this many milliseconds.
    TimedOut(u64),
}

/// Error text of a dispatch that ran out of its budget of `ms` milliseconds.
pub open spec fn command_timeout_message(ms: nat) -> Seq<char> {
    "Command timed out after "@ + decimal(ms) + "ms"@
}

/// The response to request `id` for a dispatch that ended with `outcome`.
pub fn respond(id: String, outcome: DispatchOutcome) -> (r: Response)
    ensures
        r.id@ == id@,
        match outcome {
            DispatchOutcome::Completed(data, context) => {
                &&& r.success
                &&& r.data == Some(data)
                &&& r.error is None
                &&& r.window_context == context
            },
            DispatchOutcome::Failed(e) => {
                &&& !r.success
                &&& r.data is None
                &&& r.error == Some(e)
                &&& r.window_context is None
            },
            DispatchOutcome::TimedOut(ms) => {
                &&& !r.success
                &&& r.data is None
                &&& r.error matches Some(e) && e@ == command_timeout_message(ms as nat)
                &&& r.window_context is None
            },
        },
{
    match outcome {
        DispatchOutcome::Completed(data, context) => Response {
            id,
            success: true,
            data: Some(data),
            error: None,
            window_context: context,
        },
        DispatchOutcome::Failed(e) => Response {
            id,
            success: false,
            data: None,
            error: Some(e),
            window_context: None,
        },
        DispatchOutcome::TimedOut(ms) => {
            let e = String::from_str("Command timed out after ").concat(
                decimal_text(ms).as_str(),
            ).concat("ms");
            Response { id, success: false, data: None, error: Some(e), window_context: None }
        },
    }
}

/// The response to a message that is not a well-formed request: an empty id
/// and the parser's complaint.
pub fn invalid_request_response(detail: &str) -> (r: Response)
    ensures
        r.id@ == Seq::<char>::empty(),
        !r.success,
        r.data is None,
        r.error matches Some(e) && e@ == "Invalid request JSON: "@ + detail@,
        r.window_context is None,
{
    let r = Response {
        id: String::new(),
        success: false,
        data: None,
        error: Some(String::from_str("Invalid request JSON: ").concat(detail)),
        window_context: None,
    };
    r
}

/// The command timeout in milliseconds: the configured setting when it reads as
/// a `u64`, the default otherwise.
pub fn command_timeout_ms(setting: Option<&str>) -> (r: u64)
    ensures
        r == match setting {
            Some(s) => match parsed_u64(s@) {
                Some(n) => n,
                None => DEFAULT_COMMAND_TIMEOUT_MS as nat,
            },
            None => DEFAULT_COMMAND_TIMEOUT_MS as nat,
        },
{
    match setting {
        Some(s) => match parse_u64(s) {
            Some(n) => n,
            None => DEFAULT_COMMAND_TIMEOUT_MS,
        },
        None => DEFAULT_COMMAND_TIMEOUT_MS,
    }
}

} // verus!
