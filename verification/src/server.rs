//! The app-server's protocol rules: which JSON-RPC method does what, the
//! errors for missing parameters, and the one-run-per-session registry.
//!
//! The stdio loop, the session files and the runs themselves live in the
//! application.

use vstd::prelude::*;

use crate::text::str_eq;

verus! {

/// Stable protocol version, announced in the `ready` banner.
pub const PROTOCOL_VERSION: u32 = 1;

/// JSON-RPC error code for method failures.
pub const METHOD_ERROR_CODE: i32 = -32000;

/// JSON-RPC error code for a line that is not JSON.
pub const PARSE_ERROR_CODE: i32 = -32700;

/// What a request's method asks for.
#[derive(Debug, Clone, PartialEq, Eq)]
pub enum ServerRoute {
    Initialize,
    SessionStart,
    SessionList,
    SessionLoad,
    Submit,
    Interrupt,
    PolicySet,
    /// Answer (when the request has an id) and exit.
    Shutdown,
    /// An error envelope with this message.
    Unknown(String),
}

/// The route of `method`: each known method by name, anything else an
/// `unknown method` error.
pub fn server_route(method: &str) -> (r: ServerRoute)
    ensures
        if method@ == "initialize"@ {
            r == ServerRoute::Initialize
        } else if method@ == "session_start"@ {
            r == ServerRoute::SessionStart
        } else if method@ == "session_list"@ {
            r == ServerRoute::SessionList
        } else if method@ == "session_load"@ {
            r == ServerRoute::SessionLoad
        } else if method@ == "submit"@ {
            r == ServerRoute::Submit
        } else if method@ == "interrupt"@ {
            r == ServerRoute::Interrupt
        } else if method@ == "policy_set"@ {
            r == ServerRoute::PolicySet
        } else if method@ == "shutdown"@ {
            r == ServerRoute::Shutdown
        } else {
            r matches ServerRoute::Unknown(m) && m@ == "unknown method: "@ + method@
        },
{
    if str_eq(method, "initialize") {
        ServerRoute::Initialize
    } else if str_eq(method, "session_start") {
        ServerRoute::SessionStart
    } else if str_eq(method, "session_list") {
        ServerRoute::SessionList
    } else if str_eq(method, "session_load") {
        ServerRoute::SessionLoad
    } else if str_eq(method, "submit") {
        ServerRoute::Submit
    } else if str_eq(method, "interrupt") {
        ServerRoute::Interrupt
    } else if str_eq(method, "policy_set") {
        ServerRoute::PolicySet
    } else if str_eq(method, "shutdown") {
        ServerRoute::Shutdown
    } else {
        let mut m = String::from_str("unknown method: ");
        m.append(method);
        ServerRoute::Unknown(m)
    }
}

/// The error for a request of `method` that lacks the string parameter
/// `param`: `<method>: <param> required`.
pub fn missing_param(method: &str, param: &str) -> (m: String)
    ensures
        m@ == method@ + ": "@ + param@ + " required"@,
{
    let mut m = method.to_owned();
    m.append(": ");
    m.append(param);
    m.append(" required");
    m
}

/// Whether session `id` has a run in `ids`.
pub open spec fn holds(ids: Seq<String>, id: Seq<char>) -> bool {
    exists|i: int| 0 <= i < ids.len() && (#[trigger] ids[i])@ == id
}

/// The sessions with a run in flight (one run per session).
#[derive(Debug, Clone, Default)]
pub struct ActiveRuns {
    ids: Vec<String>,
}

impl ActiveRuns {
    /// The session ids with a run in flight.
    pub closed spec fn sessions(&self) -> Seq<String> {
        self.ids@
    }

    /// Whether session `id` has a run in flight.
    pub open spec fn active(&self, id: Seq<char>) -> bool {
        holds(self.sessions(), id)
    }

    /// No runs.
    pub fn new() -> (r: Self)
        ensures
            forall|id: Seq<char>| !r.active(id),
    {
        ActiveRuns { ids: Vec::new() }
    }

    /// Whether session `id` has a run in flight.
    pub fn is_active(&self, id: &str) -> (b: bool)
        ensures
            b == self.active(id@),
    {
        let mut i: usize = 0;
        while i < self.ids.len()
            invariant
                i <= self.ids@.len(),
                forall|j: int| 0 <= j < i ==> self.ids@[j]@ != id@,
            decreases self.ids@.len() - i,
        {
            if str_eq(self.ids[i].as_str(), id) {
                assert(self.ids@[i as int]@ == id@);
                return true;
            }
            i = i + 1;
        }
        false
    }

    /// Start a run for session `id`: refused, with the registry
    /// unchanged, when the session already has one.
    pub fn begin(&mut self, id: &str) -> (r: Result<(), String>)
        ensures
            r is Ok <==> !old(self).active(id@),
            r is Ok ==> final(self).active(id@) && forall|x: Seq<char>| x != id@ ==> (final(self).active(x)
                == old(self).active(x)),
            r matches Err(m) ==> m@ == "submit: session "@ + id@ + " already has an active run"@
                && final(self).sessions() == old(self).sessions(),
    {
        if self.is_active(id) {
            let mut m = String::from_str("submit: session ");
            m.append(id);
            m.append(" already has an active run");
            return Err(m);
        }
        let ghost before = self.ids@;
        self.ids.push(id.to_owned());
        assert(self.ids@[before.len() as int]@ == id@);
        assert forall|x: Seq<char>| x != id@ implies (holds(self.ids@, x) == holds(before, x)) by {
            if holds(before, x) {
                let i = choose|i: int| 0 <= i < before.len() && (#[trigger] before[i])@ == x;
                assert(self.ids@[i] == before[i]);
            }
            if holds(self.ids@, x) {
                let i = choose|i: int| 0 <= i < self.ids@.len() && (#[trigger] self.ids@[i])@ == x;
                assert(i < before.len());
                assert(before[i] == self.ids@[i]);
            }
        }
        Ok(())
    }

    /// End session `id`'s run, if it has one.
    pub fn end(&mut self, id: &str)
        ensures
            !final(self).active(id@),
            forall|x: Seq<char>| x != id@ ==> (final(self).active(x) == old(self).active(x)),
    {
        let mut kept: Vec<String> = Vec::new();
        let mut i: usize = 0;
        while i < self.ids.len()
            invariant
                i <= self.ids@.len(),
                forall|j: int| 0 <= j < kept@.len() ==> (#[trigger] kept@[j])@ != id@,
                forall|x: Seq<char>| x != id@ ==> (holds(kept@, x) == holds(self.ids@.take(i as int), x)),
            decreases self.ids@.len() - i,
        {
            let ghost prefix = self.ids@.take(i as int);
            let ghost before = kept@;
            assert(self.ids@.take(i + 1) =~= prefix.push(self.ids@[i as int]));
            if !str_eq(self.ids[i].as_str(), id) {
                kept.push(self.ids[i].clone());
            }
            assert forall|x: Seq<char>| x != id@ implies (holds(kept@, x) == holds(self.ids@.take(i + 1), x)) by {
                let next = self.ids@.take(i + 1);
                if holds(kept@, x) {
                    let k = choose|k: int| 0 <= k < kept@.len() && (#[trigger] kept@[k])@ == x;
                    if k < before.len() {
                        assert(before[k] == kept@[k]);
                        assert(holds(before, x));
                        assert(holds(prefix, x));
                        let p = choose|p: int| 0 <= p < prefix.len() && (#[trigger] prefix[p])@ == x;
                        assert(next[p] == prefix[p]);
                    } else {
                        assert(next[i as int] == self.ids@[i as int]);
                    }
                }
                if holds(next, x) {
                    let p = choose|p: int| 0 <= p < next.len() && (#[trigger] next[p])@ == x;
                    if p < i {
                        assert(prefix[p] == next[p]);
                        assert(holds(prefix, x));
                        assert(holds(before, x));
                        let k = choose|k: int| 0 <= k < before.len() && (#[trigger] before[k])@ == x;
                        assert(kept@[k] == before[k]);
                    } else {
                        assert(kept@[before.len() as int]@ == x);
                    }
                }
            }
            i = i + 1;
        }
        assert(self.ids@.take(i as int) =~= self.ids@);
        self.ids = kept;
    }
}

} // verus!

verus! {

/// Where the log of session `id` lives under the project root `root`:
/// `<root>/.crow/sessions/<id>.jsonl`.
pub open spec fn session_log_path(root: Seq<char>, id: Seq<char>) -> Seq<char> {
    let rest = ".crow/sessions/"@ + id + ".jsonl"@;
    if root.len() > 0 && root.last() == '/' {
        root + rest
    } else {
        root + "/"@ + rest
    }
}

/// Check that the (canonical) `path` a request names is the log of
/// `session_id` under the (canonical) `project_root`; otherwise a
/// `path mismatch` error naming both paths.
pub fn check_session_path(path: &str, project_root: &str, session_id: &str) -> (r: Result<(), String>)
    ensures
        r is Ok <==> path@ == session_log_path(project_root@, session_id@),
        r matches Err(m) ==> m@ == "path mismatch: expected "@ + session_log_path(project_root@, session_id@)
            + ", got "@ + path@,
{
    let mut expected = project_root.to_owned();
    let n = project_root.unicode_len();
    let ends_with_slash = n > 0 && project_root.get_char(n - 1) == '/';
    if !ends_with_slash {
        expected.append("/");
    }
    expected.append(".crow/sessions/");
    expected.append(session_id);
    expected.append(".jsonl");
    proof {
        let rest = ".crow/sessions/"@ + session_id@ + ".jsonl"@;
        if ends_with_slash {
            assert(expected@ =~= project_root@ + rest);
        } else {
            assert(expected@ =~= project_root@ + "/"@ + rest);
        }
    }
    if str_eq(path, expected.as_str()) {
        Ok(())
    } else {
        let mut m = String::from_str("path mismatch: expected ");
        m.append(expected.as_str());
        m.append(", got ");
        m.append(path);
        Err(m)
    }
}

} // verus!
