//! Command dispatcher: resolves the target surface a request addresses and
//! maps command names to commands.

use vstd::prelude::*;
use vstd::string::StringExecFns;

use crate::text::same_text;

verus! {

broadcast use vstd::string::group_string_axioms;

/// The commands a client can send.
#[derive(Debug, Clone, Copy, PartialEq, Eq, Structural)]
pub enum Command {
    Screenshot,
    ExecuteJs,
    ConsoleLogs,
    DomSnapshot,
    Interact,
    WaitFor,
    WindowList,
    WindowInfo,
    WindowResize,
}

/// The wire name of each command.
pub open spec fn command_name(c: Command) -> Seq<char> {
    match c {
        Command::Screenshot => "screenshot"@,
        Command::ExecuteJs => "execute_js"@,
        Command::ConsoleLogs => "console_logs"@,
        Command::DomSnapshot => "dom_snapshot"@,
        Command::Interact => "interact"@,
        Command::WaitFor => "wait_for"@,
        Command::WindowList => "window_list"@,
        Command::WindowInfo => "window_info"@,
        Command::WindowResize => "window_resize"@,
    }
}

/// The valid command names, as listed in the error for an unknown one.
pub const AVAILABLE_COMMANDS: &'static str =
    "screenshot, execute_js, console_logs, dom_snapshot, interact, wait_for, window_list, window_info, window_resize";

/// Error text for an unknown command `name`.
pub open spec fn unknown_command_message(name: Seq<char>) -> Seq<char> {
    "Unknown command: '"@ + name + "'. Available: "@ + AVAILABLE_COMMANDS@
}

/// The command whose wire name is `name`, if any.
pub open spec fn command_named(name: Seq<char>) -> Option<Command> {
    if name == "screenshot"@ {
        Some(Command::Screenshot)
    } else if name == "execute_js"@ {
        Some(Command::ExecuteJs)
    } else if name == "console_logs"@ {
        Some(Command::ConsoleLogs)
    } else if name == "dom_snapshot"@ {
        Some(Command::DomSnapshot)
    } else if name == "interact"@ {
        Some(Command::Interact)
    } else if name == "wait_for"@ {
        Some(Command::WaitFor)
    } else if name == "window_list"@ {
        Some(Command::WindowList)
    } else if name == "window_info"@ {
        Some(Command::WindowInfo)
    } else if name == "window_resize"@ {
        Some(Command::WindowResize)
    } else {
        None
    }
}

/// The command named `name`, or an error that lists the valid names.
pub fn parse_command(name: &str) -> (r: Result<Command, String>)
    ensures
        match r {
            Ok(c) => command_named(name@) == Some(c) && command_name(c) == name@,
            Err(e) => {
                &&& command_named(name@) is None
                &&& forall|c: Command| #[trigger] command_name(c) != name@
                &&& e@ == unknown_command_message(name@)
            },
        },
{
    if same_text(name, "screenshot") {
        Ok(Command::Screenshot)
    } else if same_text(name, "execute_js") {
        Ok(Command::ExecuteJs)
    } else if same_text(name, "console_logs") {
        Ok(Command::ConsoleLogs)
    } else if same_text(name, "dom_snapshot") {
        Ok(Command::DomSnapshot)
    } else if same_text(name, "interact") {
        Ok(Command::Interact)
    } else if same_text(name, "wait_for") {
        Ok(Command::WaitFor)
    } else if same_text(name, "window_list") {
        Ok(Command::WindowList)
    } else if same_text(name, "window_info") {
        Ok(Command::WindowInfo)
    } else if same_text(name, "window_resize") {
        Ok(Command::WindowResize)
    } else {
        assert forall|c: Command| #[trigger] command_name(c) != name@ by {
            match c {
                Command::Screenshot => {},
                Command::ExecuteJs => {},
                Command::ConsoleLogs => {},
                Command::DomSnapshot => {},
                Command::Interact => {},
                Command::WaitFor => {},
                Command::WindowList => {},
                Command::WindowInfo => {},
                Command::WindowResize => {},
            }
        }
        Err(String::from_str("Unknown command: '").concat(name).concat("'. Available: ").concat(
            AVAILABLE_COMMANDS,
        ))
    }
}

/// A surface (window) that can serve commands.
#[derive(Debug, Clone)]
pub struct Surface {
    /// Its label, the selector clients use.
    pub label: String,
    /// Whether it has the input focus.
    pub focused: bool,
}

/// The labels of `s`, in order.
pub open spec fn labels(s: Seq<Surface>) -> Seq<Seq<char>> {
    s.map_values(|x: Surface| x.label@)
}

/// The elements of `ls` separated by `sep`.
pub open spec fn joined(ls: Seq<Seq<char>>, sep: Seq<char>) -> Seq<char>
    decreases ls.len(),
{
    if ls.len() == 0 {
        Seq::empty()
    } else if ls.len() == 1 {
        ls[0]
    } else {
        joined(ls.drop_last(), sep) + sep + ls.last()
    }
}

/// Index of the first surface at or after `i` labelled `l` (or `s.len()`).
pub open spec fn first_labelled(s: Seq<Surface>, l: Seq<char>, i: int) -> int
    decreases s.len() - i,
{
    if i < 0 || i >= s.len() {
        s.len() as int
    } else if s[i].label@ == l {
        i
    } else {
        first_labelled(s, l, i + 1)
    }
}

/// Index of the first focused surface at or after `i` (or `s.len()`).
pub open spec fn first_focused(s: Seq<Surface>, i: int) -> int
    decreases s.len() - i,
{
    if i < 0 || i >= s.len() {
        s.len() as int
    } else if s[i].focused {
        i
    } else {
        first_focused(s, i + 1)
    }
}

/// Error text for a selector `l` that names none of the surfaces `s`.
pub open spec fn not_found_message(l: Seq<char>, s: Seq<Surface>) -> Seq<char> {
    "Window '"@ + l + "' not found. Available: "@ + joined(labels(s), ", "@)
}

/// Error text when there is no surface at all.
pub const NO_WINDOWS: &'static str = "No windows available";

/// The surface that serves a request with selector `sel`: the first one with
/// that label; without a selector, the first focused one, else the first one.
pub open spec fn resolved_target(s: Seq<Surface>, sel: Option<Seq<char>>) -> Result<int, Seq<char>> {
    if s.len() == 0 {
        Err(NO_WINDOWS@)
    } else {
        match sel {
            Some(l) => if first_labelled(s, l, 0) < s.len() {
                Ok(first_labelled(s, l, 0))
            } else {
                Err(not_found_message(l, s))
            },
            None => if first_focused(s, 0) < s.len() {
                Ok(first_focused(s, 0))
            } else {
                Ok(0)
            },
        }
    }
}

/// An optional `str` as an optional character sequence.
pub open spec fn opt_text(o: Option<&str>) -> Option<Seq<char>> {
    match o {
        Some(t) => Some(t@),
        None => None,
    }
}

/// An optional `String` as an optional character sequence.
pub open spec fn opt_string(o: Option<String>) -> Option<Seq<char>> {
    match o {
        Some(t) => Some(t@),
        None => None,
    }
}

fn join_labels(surfaces: &Vec<Surface>) -> (r: String)
    ensures
        r@ == joined(labels(surfaces@), ", "@),
{
    let mut out = String::new();
    let mut i: usize = 0;
    while i < surfaces.len()
        invariant
            i <= surfaces.len(),
            out@ == joined(labels(surfaces@.subrange(0, i as int)), ", "@),
        decreases surfaces.len() - i,
    {
        let ghost before = labels(surfaces@.subrange(0, i as int));
        if i > 0 {
            out.append(", ");
        }
        out.append(surfaces[i].label.as_str());
        proof {
            let after = labels(surfaces@.subrange(0, i + 1));
            assert(after.drop_last() =~= before);
            assert(after.last() == surfaces@[i as int].label@);
            if i == 0 {
                assert(out@ =~= joined(after, ", "@));
            }
        }
        i += 1;
    }
    assert(surfaces@.subrange(0, surfaces.len() as int) =~= surfaces@);
    out
}

/// Picks the surface that serves a request (see [`resolved_target`]); an
/// unknown selector is an error that lists the available labels.
pub fn resolve_target(surfaces: &Vec<Surface>, selector: Option<&str>) -> (r: Result<usize, String>)
    ensures
        match r {
            Ok(i) => resolved_target(surfaces@, opt_text(selector)) == Ok::<int, Seq<char>>(i as int),
            Err(e) => resolved_target(surfaces@, opt_text(selector)) == Err::<int, Seq<char>>(e@),
        },
{
    let n = surfaces.len();
    if n == 0 {
        return Err(String::from_str(NO_WINDOWS));
    }
    match selector {
        Some(l) => {
            let mut i: usize = 0;
            while i < n && !same_text(surfaces[i].label.as_str(), l)
                invariant
                    n == surfaces.len(),
                    i <= n,
                    first_labelled(surfaces@, l@, 0) == first_labelled(surfaces@, l@, i as int),
                decreases n - i,
            {
                i += 1;
            }
            if i < n {
                Ok(i)
            } else {
                let msg = String::from_str("Window '").concat(l).concat(
                    "' not found. Available: ",
                ).concat(join_labels(surfaces).as_str());
                Err(msg)
            }
        },
        None => {
            let mut i: usize = 0;
            while i < n && !surfaces[i].focused
                invariant
                    n == surfaces.len(),
                    i <= n,
                    first_focused(surfaces@, 0) == first_focused(surfaces@, i as int),
                decreases n - i,
            {
                i += 1;
            }
            if i < n {
                Ok(i)
            } else {
                Ok(0)
            }
        },
    }
}

/// A selector that names none of the available surfaces is refused with an
/// error that lists every available label.
pub proof fn law_unknown_selector(s: Seq<Surface>, l: Seq<char>)
    requires
        s.len() > 0,
        forall|i: int| 0 <= i < s.len() ==> (#[trigger] s[i]).label@ != l,
    ensures
        resolved_target(s, Some(l)) == Err::<int, Seq<char>>(not_found_message(l, s)),
{
    lemma_first_labelled_none(s, l, 0);
}

proof fn lemma_first_labelled_none(s: Seq<Surface>, l: Seq<char>, i: int)
    requires
        0 <= i <= s.len(),
        forall|k: int| 0 <= k < s.len() ==> (#[trigger] s[k]).label@ != l,
    ensures
        first_labelled(s, l, i) == s.len(),
    decreases s.len() - i,
{
    if i < s.len() {
        lemma_first_labelled_none(s, l, i + 1);
    }
}

/// `name` occurs in `text`.
pub open spec fn mentions(text: Seq<char>, name: Seq<char>) -> bool {
    exists|i: int|
        0 <= i && i + name.len() <= text.len() && #[trigger] text.subrange(i, i + name.len())
            == name
}

proof fn lemma_mentions_at(text: Seq<char>, name: Seq<char>, i: int)
    requires
        0 <= i && i + name.len() <= text.len(),
        text.subrange(i, i + name.len()) =~= name,
    ensures
        mentions(text, name),
{
}

/// The error for an unknown command name lists every valid command name.
pub proof fn law_unknown_command_lists_all(name: Seq<char>)
    ensures
        forall|c: Command| mentions(unknown_command_message(name), #[trigger] command_name(c)),
{
    reveal_strlit("screenshot, execute_js, console_logs, dom_snapshot, interact, wait_for, window_list, window_info, window_resize");
    reveal_strlit("Unknown command: '");
    reveal_strlit("'. Available: ");
    reveal_strlit("screenshot");
    reveal_strlit("execute_js");
    reveal_strlit("console_logs");
    reveal_strlit("dom_snapshot");
    reveal_strlit("interact");
    reveal_strlit("wait_for");
    reveal_strlit("window_list");
    reveal_strlit("window_info");
    reveal_strlit("window_resize");
    let m = unknown_command_message(name);
    let a = AVAILABLE_COMMANDS@;
    let base: int = 32 + name.len() as int;
    assert(m.subrange(base, m.len() as int) =~= a);
    assert forall|c: Command| mentions(m, #[trigger] command_name(c)) by {
        let n = command_name(c);
        let o: int = match c {
            Command::Screenshot => 0,
            Command::ExecuteJs => 12,
            Command::ConsoleLogs => 24,
            Command::DomSnapshot => 38,
            Command::Interact => 52,
            Command::WaitFor => 62,
            Command::WindowList => 72,
            Command::WindowInfo => 85,
            Command::WindowResize => 98,
        };
        assert(a.subrange(o, o + n.len()) =~= n);
        assert(m.subrange(base + o, base + o + n.len()) =~= a.subrange(o, o + n.len()));
        lemma_mentions_at(m, n, base + o);
    }
}

} // verus!
