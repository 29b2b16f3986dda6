//! JSON text: string literals (through serde_json) and objects built from
//! members.

use vstd::prelude::*;
use vstd::string::StringExecFns;

verus! {

broadcast use vstd::string::group_string_axioms;

/// The JSON string literal that serde_json writes for `s`.
pub uninterp spec fn json_string(s: Seq<char>) -> Seq<char>;

/// Relies on serde_json::to_string for a `str`: the quoted, escaped JSON
/// string literal of `s`. Writing a `str` into memory cannot fail there, so the
/// error arm is never taken.
#[verifier::external_body]
pub(crate) fn quote_json(s: &str) -> (r: String)
    ensures
        r@ == json_string(s@),
{
    match serde_json::to_string(s) {
        Ok(t) => t,
        Err(_) => String::new(),
    }
}

/// JSON text of a boolean.
pub open spec fn bool_text(b: bool) -> Seq<char> {
    if b {
        "true"@
    } else {
        "false"@
    }
}

pub(crate) fn bool_json(b: bool) -> (r: &'static str)
    ensures
        r@ == bool_text(b),
{
    if b {
        "true"
    } else {
        "false"
    }
}

/// One member `"key":value` of a JSON object; keys are plain names that need
/// no escaping.
pub open spec fn member_text(m: (Seq<char>, Seq<char>)) -> Seq<char> {
    "\""@ + m.0 + "\":"@ + m.1
}

/// The members of an object, separated by commas.
pub open spec fn members_text(ms: Seq<(Seq<char>, Seq<char>)>) -> Seq<char>
    decreases ms.len(),
{
    if ms.len() == 0 {
        Seq::empty()
    } else if ms.len() == 1 {
        member_text(ms[0])
    } else {
        members_text(ms.drop_last()) + ","@ + member_text(ms.last())
    }
}

/// A JSON object with members `ms`, in order.
pub open spec fn object_text(ms: Seq<(Seq<char>, Seq<char>)>) -> Seq<char> {
    "{"@ + members_text(ms) + "}"@
}

/// `ms` has a member named `key`.
pub open spec fn has_key(ms: Seq<(Seq<char>, Seq<char>)>, key: Seq<char>) -> bool {
    exists|i: int| 0 <= i < ms.len() && (#[trigger] ms[i]).0 == key
}

/// A JSON object under construction: the text so far holds `{` and the
/// members added.
pub(crate) struct ObjectWriter {
    pub(crate) text: String,
    pub(crate) nonempty: bool,
    pub(crate) members: Ghost<Seq<(Seq<char>, Seq<char>)>>,
}

impl ObjectWriter {
    pub(crate) open spec fn wf(&self) -> bool {
        &&& self.text@ == "{"@ + members_text(self.members@)
        &&& self.nonempty == (self.members@.len() > 0)
    }

    pub(crate) fn new() -> (r: Self)
        ensures
            r.wf(),
            r.members@ == Seq::<(Seq<char>, Seq<char>)>::empty(),
    {
        let r = ObjectWriter {
            text: String::from_str("{"),
            nonempty: false,
            members: Ghost(Seq::empty()) };
        assert(r.text@ =~= "{"@ + members_text(r.members@));
        r
    }

    /// Adds member `"key":value`, where `value` is JSON text.
    pub(crate) fn member(&mut self, key: &str, value: &str)
        requires
            old(self).wf(),
        ensures
            final(self).wf(),
            final(self).members@ == old(self).members@.push((key@, value@)),
    {
        let ghost ms = self.members@;
        let ghost m = (key@, value@);
        let had_members = self.nonempty;
        if had_members {
            self.text.append(",");
        }
        self.text.append("\"");
        self.text.append(key);
        self.text.append("\":");
        self.text.append(value);
        self.members = Ghost(ms.push(m));
        self.nonempty = true;
        assert(ms.push(m).drop_last() =~= ms);
        assert(self.text@ =~= "{"@ + members_text(self.members@));
    }

    /// Closes the object.
    pub(crate) fn finish(self) -> (r: String)
        requires
            self.wf(),
        ensures
            r@ == object_text(self.members@),
    {
        let mut t = self.text;
        t.append("}");
        t
    }
}

} // verus!
