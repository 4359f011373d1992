//! One-shot sessions with a provider, as a state machine.
//!
//! A session never touches the outside world itself.  Each call of
//! [`Session::step`] takes the outcome of the previous piece of outside
//! work (an [`Event`]) and decides the next one (an [`Action`]): check
//! the path, force the executable bit, spawn, write a request line,
//! read a response line, pause, terminate, finish.  The caller performs
//! the actions in the order the session hands them out; every protocol
//! decision — what is sent, in which order, with which ids, and what
//! the outcome is — is made here.
//!
//! Unlike a caller that forgets cleanup on early failures, the session
//! asks for termination on every path on which the process may be
//! running: once a spawn has succeeded, the session never finishes
//! without first issuing `Terminate`.

use crate::json::{json_is_null, json_member, json_parse, null_value, value_get};
use crate::rpc::{
    build_call_request, build_list_request, call_line_spec, decode_response, decode_spec,
    list_line_spec,
};
use vstd::pervasive::unreached;
use vstd::prelude::*;
use vstd::string::StringExecFns;

verus! {

/// Which exchange the session performs.
#[derive(Clone, Copy)]
pub enum Op {
    /// Enumerate the provider's tools: one `tools/list` round trip.
    ListTools,
    /// Invoke a named tool: a discarded `tools/list` round trip, a
    /// pause, then the `tools/call` round trip.
    CallTool,
}

/// The outside work the caller must perform next.
pub enum Action {
    /// Ask whether a file exists at the provider's path.
    CheckPath,
    /// Read the provider file's permission bits.
    ReadMetadata,
    /// Set the provider file's permission bits to the given mode.
    SetPermissions(u32),
    /// Start the provider, its standard input and output piped, its
    /// standard error inherited.
    Spawn,
    /// Write exactly this text to the provider's standard input.
    WriteLine(String),
    /// Read one line from the provider's standard output.
    ReadLine,
    /// Wait this many milliseconds.
    Pause(u64),
    /// Terminate the provider (best effort; the outcome is ignored).
    Terminate,
    /// The session is over, with this outcome.
    Finish(Result<serde_json::Value, String>),
}

/// What the last action's outside work came to.
pub enum Event {
    /// Whether a file exists at the provider's path.
    PathChecked(bool),
    /// The permission bits read, or the failure's text.
    MetadataRead(Result<u32, String>),
    /// Whether the permission bits were set, or the failure's text.
    PermissionsSet(Result<(), String>),
    /// On a start: whether each of the standard input and output pipes
    /// was acquired; otherwise the spawn failure's text.
    Spawned(Result<(bool, bool), String>),
    /// Whether the line was written, or the failure's text.
    LineWritten(Result<(), String>),
    /// The line read, or the failure's text.
    LineRead(Result<String, String>),
    /// The pause has elapsed.
    Paused,
    /// Termination was attempted.
    Terminated,
}

/// Where the session stands: each phase names the event it awaits.
#[derive(Clone, Copy)]
pub enum Phase {
    CheckingPath,
    ReadingMetadata,
    SettingPermissions,
    Spawning,
    SendingList,
    ReadingList,
    Pausing,
    SendingCall,
    ReadingCall,
    Terminating,
    Finished,
}

/// One exchange with one provider, from path check to termination.
pub struct Session {
    /// Which exchange this is.
    pub op: Op,
    /// The provider executable's path.
    pub path: String,
    /// The tool to invoke (meaningful only for a call).
    pub tool: String,
    /// The arguments to pass (present exactly for a call).
    pub args: Option<serde_json::Value>,
    /// The event the session awaits.
    pub phase: Phase,
    /// The outcome, once decided, held until termination was attempted.
    pub outcome: Option<Result<serde_json::Value, String>>,
    /// Every line handed out for writing, in order.
    pub sent: Ghost<Seq<Seq<char>>>,
    /// Every line that came back from a read, in order.
    pub received: Ghost<Seq<Seq<char>>>,
    /// Whether a `Spawn` action has been issued.
    pub spawn_requested: Ghost<bool>,
}

/// The mode forced onto the provider before launch: owner may read,
/// write and execute; group and others may read and execute.
pub const EXECUTABLE_MODE: u32 = 0o755;

/// How many milliseconds the call exchange pauses between the
/// discarded listing round trip and the real call, to let the provider
/// settle.
pub const PAUSE_MILLIS: u64 = 100;

/// The failure for a path with no file: it names the path.
pub open spec fn not_found_spec(path: Seq<char>) -> Seq<char> {
    "Executable not found: "@ + path
}

/// The failure for permission bits that could not be read.
pub open spec fn metadata_error_spec(detail: Seq<char>) -> Seq<char> {
    "metadata error: "@ + detail
}

/// The failure for permission bits that could not be set.
pub open spec fn chmod_error_spec(detail: Seq<char>) -> Seq<char> {
    "chmod error: "@ + detail
}

/// The failure for a provider that did not start: it names the path
/// and the operating system's text.
pub open spec fn spawn_error_spec(path: Seq<char>, detail: Seq<char>) -> Seq<char> {
    "Failed to start `"@ + path + "`: "@ + detail
}

/// The failure for a request line that could not be written.
pub open spec fn write_error_spec(detail: Seq<char>) -> Seq<char> {
    "Error writing stdin: "@ + detail
}

/// The failure for a response line that could not be read.
pub open spec fn read_error_spec(detail: Seq<char>) -> Seq<char> {
    "Error reading stdout: "@ + detail
}

/// Decides the flag-forcing step from the permission bits just read:
/// the mode to force when reading succeeded, the session's failure
/// otherwise.
pub fn apply_executable_flag(metadata: Result<u32, String>) -> (r: Result<u32, String>)
    ensures
        metadata is Ok ==> r == Ok::<u32, String>(EXECUTABLE_MODE),
        (metadata matches Err(e) ==> r matches Err(m) && m@ == metadata_error_spec(e@)),
{
    match metadata {
        Ok(_) => Ok(EXECUTABLE_MODE),
        Err(e) => {
            let mut m = String::from_str("metadata error: ");
            m.append(e.as_str());
            Err(m)
        },
    }
}

/// The `tools` member of a listing response line, when the line parses
/// and carries one.
pub open spec fn listed_tools_spec(line: Seq<char>) -> Option<serde_json::Value> {
    match json_parse(line) {
        Ok(doc) => match json_member(doc, "result"@) {
            Some(res) => json_member(res, "tools"@),
            None => None,
        },
        Err(_) => None,
    }
}

/// What a call response line's `result` holds under `content`:
/// `Some(mc)` when the line parses and has a `result` (`mc` being the
/// `content` member, if any), `None` otherwise.
pub open spec fn call_content_spec(line: Seq<char>) -> Option<Option<serde_json::Value>> {
    match json_parse(line) {
        Ok(doc) => match json_member(doc, "result"@) {
            Some(res) => Some(json_member(res, "content"@)),
            None => None,
        },
        Err(_) => None,
    }
}

impl Session {
    /// The session's invariant: its record of what was sent, received
    /// and decided agrees with where it stands.
    pub open spec fn wf(self) -> bool {
        &&& (self.op is CallTool <==> self.args is Some)
        &&& match self.phase {
            Phase::CheckingPath | Phase::ReadingMetadata | Phase::SettingPermissions => {
                &&& self.sent@.len() == 0
                &&& self.received@.len() == 0
                &&& self.outcome is None
                &&& !self.spawn_requested@
            },
            Phase::Spawning => {
                &&& self.sent@.len() == 0
                &&& self.received@.len() == 0
                &&& self.outcome is None
                &&& self.spawn_requested@
            },
            Phase::SendingList | Phase::ReadingList => {
                &&& self.sent@ == seq![list_line_spec()]
                &&& self.received@.len() == 0
                &&& self.outcome is None
                &&& self.spawn_requested@
            },
            Phase::Pausing => {
                &&& self.op is CallTool
                &&& self.sent@ == seq![list_line_spec()]
                &&& self.received@.len() == 1
                &&& json_parse(self.received@[0]) is Ok
                &&& self.outcome is None
                &&& self.spawn_requested@
            },
            Phase::SendingCall | Phase::ReadingCall => {
                &&& self.op is CallTool
                &&& (self.args matches Some(a) && self.sent@ == seq![
                    list_line_spec(),
                    call_line_spec(self.tool@, a),
                ])
                &&& self.received@.len() == 1
                &&& json_parse(self.received@[0]) is Ok
                &&& self.outcome is None
                &&& self.spawn_requested@
            },
            Phase::Terminating => {
                &&& self.outcome is Some
                &&& self.spawn_requested@
                &&& match self.op {
                    Op::ListTools => (self.outcome matches Some(oc) && (oc matches Ok(v) ==> {
                        &&& self.sent@ == seq![list_line_spec()]
                        &&& self.received@.len() == 1
                        &&& listed_tools_spec(self.received@[0]) == Some(v)
                    })),
                    Op::CallTool => (self.outcome matches Some(oc) && (oc matches Ok(v) ==> {
                        &&& (self.args matches Some(a) && self.sent@ == seq![
                            list_line_spec(),
                            call_line_spec(self.tool@, a),
                        ])
                        &&& self.received@.len() == 2
                        &&& match call_content_spec(self.received@[1]) {
                            Some(mc) => match mc {
                                Some(c) => v == c,
                                None => json_is_null(v),
                            },
                            None => false,
                        }
                    })),
                }
            },
            Phase::Finished => true,
        }
    }

    /// Whether `event` answers the action the session is waiting on.
    pub open spec fn event_fits(self, event: Event) -> bool {
        match self.phase {
            Phase::CheckingPath => event is PathChecked,
            Phase::ReadingMetadata => event is MetadataRead,
            Phase::SettingPermissions => event is PermissionsSet,
            Phase::Spawning => event is Spawned,
            Phase::SendingList | Phase::SendingCall => event is LineWritten,
            Phase::ReadingList | Phase::ReadingCall => event is LineRead,
            Phase::Pausing => event is Paused,
            Phase::Terminating => event is Terminated,
            Phase::Finished => false,
        }
    }

    /// Begins a listing session.  The caller's first piece of outside
    /// work is the returned action.
    pub fn list_session(path: String) -> (r: (Session, Action))
        ensures
            r.0.wf(),
            r.0.op is ListTools,
            r.0.path == path,
            r.0.phase is CheckingPath,
            r.1 is CheckPath,
    {
        let s = Session {
            op: Op::ListTools,
            path,
            tool: String::new(),
            args: None,
            phase: Phase::CheckingPath,
            outcome: None,
            sent: Ghost(Seq::empty()),
            received: Ghost(Seq::empty()),
            spawn_requested: Ghost(false),
        };
        (s, Action::CheckPath)
    }

    /// Begins a call session for `tool` with `args`.  The caller's
    /// first piece of outside work is the returned action.
    pub fn call_session(path: String, tool: String, args: serde_json::Value) -> (r: (
        Session,
        Action,
    ))
        ensures
            r.0.wf(),
            r.0.op is CallTool,
            r.0.path == path,
            r.0.tool == tool,
            r.0.args == Some(args),
            r.0.phase is CheckingPath,
            r.1 is CheckPath,
    {
        let s = Session {
            op: Op::CallTool,
            path,
            tool,
            args: Some(args),
            phase: Phase::CheckingPath,
            outcome: None,
            sent: Ghost(Seq::empty()),
            received: Ghost(Seq::empty()),
            spawn_requested: Ghost(false),
        };
        (s, Action::CheckPath)
    }

    /// Advances the session by one step: `event` answers the pending
    /// action, the returned action is the next piece of outside work.
    pub fn step(&mut self, event: Event) -> (a: Action)
        requires
            old(self).wf(),
            old(self).event_fits(event),
        ensures
            final(self).wf(),
            step_spec(*old(self), event, *final(self), a),
    {
        let ph = self.phase;
        match (ph, event) {
            (Phase::CheckingPath, Event::PathChecked(found)) => {
                if found {
                    self.phase = Phase::ReadingMetadata;
                    Action::ReadMetadata
                } else {
                    self.phase = Phase::Finished;
                    let mut m = String::from_str("Executable not found: ");
                    m.append(self.path.as_str());
                    Action::Finish(Err(m))
                }
            },
            (Phase::ReadingMetadata, Event::MetadataRead(res)) => {
                match apply_executable_flag(res) {
                    Ok(mode) => {
                        self.phase = Phase::SettingPermissions;
                        Action::SetPermissions(mode)
                    },
                    Err(m) => {
                        self.phase = Phase::Finished;
                        Action::Finish(Err(m))
                    },
                }
            },
            (Phase::SettingPermissions, Event::PermissionsSet(res)) => {
                match res {
                    Ok(_) => {
                        self.phase = Phase::Spawning;
                        self.spawn_requested = Ghost(true);
                        Action::Spawn
                    },
                    Err(e) => {
                        self.phase = Phase::Finished;
                        let mut m = String::from_str("chmod error: ");
                        m.append(e.as_str());
                        Action::Finish(Err(m))
                    },
                }
            },
            (Phase::Spawning, Event::Spawned(res)) => {
                match res {
                    Ok(pipes) => {
                        if pipes.0 && pipes.1 {
                            let line = build_list_request();
                            self.sent = Ghost(self.sent@.push(line@));
                            proof {
                                assert(self.sent@ =~= seq![list_line_spec()]);
                            }
                            self.phase = Phase::SendingList;
                            Action::WriteLine(line)
                        } else if !pipes.0 {
                            self.outcome = Some(Err(String::from_str("Failed to open stdin")));
                            self.phase = Phase::Terminating;
                            Action::Terminate
                        } else {
                            self.outcome = Some(Err(String::from_str("Failed to open stdout")));
                            self.phase = Phase::Terminating;
                            Action::Terminate
                        }
                    },
                    Err(e) => {
                        self.phase = Phase::Finished;
                        let mut m = String::from_str("Failed to start `");
                        m.append(self.path.as_str());
                        m.append("`: ");
                        m.append(e.as_str());
                        Action::Finish(Err(m))
                    },
                }
            },
            (Phase::SendingList, Event::LineWritten(res)) => {
                match res {
                    Ok(_) => {
                        self.phase = Phase::ReadingList;
                        Action::ReadLine
                    },
                    Err(e) => {
                        let mut m = String::from_str("Error writing stdin: ");
                        m.append(e.as_str());
                        self.outcome = Some(Err(m));
                        self.phase = Phase::Terminating;
                        Action::Terminate
                    },
                }
            },
            (Phase::ReadingList, Event::LineRead(res)) => {
                match res {
                    Ok(line) => {
                        self.received = Ghost(self.received@.push(line@));
                        match decode_response(line.as_str()) {
                            Ok(resp) => {
                                match self.op {
                                    Op::ListTools => {
                                        let oc = match resp.result {
                                            None => Err(
                                                String::from_str(
                                                    "tools/list response missing result",
                                                ),
                                            ),
                                            Some(res_val) => match value_get(&res_val, "tools") {
                                                None => Err(
                                                    String::from_str("tools key not found in result"),
                                                ),
                                                Some(tools) => Ok(tools),
                                            },
                                        };
                                        self.outcome = Some(oc);
                                        self.phase = Phase::Terminating;
                                        Action::Terminate
                                    },
                                    Op::CallTool => {
                                        self.phase = Phase::Pausing;
                                        Action::Pause(PAUSE_MILLIS)
                                    },
                                }
                            },
                            Err(m) => {
                                self.outcome = Some(Err(m));
                                self.phase = Phase::Terminating;
                                Action::Terminate
                            },
                        }
                    },
                    Err(e) => {
                        let mut m = String::from_str("Error reading stdout: ");
                        m.append(e.as_str());
                        self.outcome = Some(Err(m));
                        self.phase = Phase::Terminating;
                        Action::Terminate
                    },
                }
            },
            (Phase::Pausing, Event::Paused) => {
                match &self.args {
                    Some(a) => {
                        let line = build_call_request(self.tool.as_str(), a);
                        self.sent = Ghost(self.sent@.push(line@));
                        proof {
                            assert(self.sent@ =~= seq![list_line_spec(), call_line_spec(self.tool@, *a)]);
                        }
                        self.phase = Phase::SendingCall;
                        Action::WriteLine(line)
                    },
                    None => unreached(),
                }
            },
            (Phase::SendingCall, Event::LineWritten(res)) => {
                match res {
                    Ok(_) => {
                        self.phase = Phase::ReadingCall;
                        Action::ReadLine
                    },
                    Err(e) => {
                        let mut m = String::from_str("Error writing stdin: ");
                        m.append(e.as_str());
                        self.outcome = Some(Err(m));
                        self.phase = Phase::Terminating;
                        Action::Terminate
                    },
                }
            },
            (Phase::ReadingCall, Event::LineRead(res)) => {
                match res {
                    Ok(line) => {
                        self.received = Ghost(self.received@.push(line@));
                        match decode_response(line.as_str()) {
                            Ok(resp) => {
                                let oc = match resp.result {
                                    None => Err(
                                        String::from_str("tools/call response missing result"),
                                    ),
                                    Some(res_val) => match value_get(&res_val, "content") {
                                        Some(content) => Ok(content),
                                        None => Ok(null_value()),
                                    },
                                };
                                self.outcome = Some(oc);
                                self.phase = Phase::Terminating;
                                Action::Terminate
                            },
                            Err(m) => {
                                self.outcome = Some(Err(m));
                                self.phase = Phase::Terminating;
                                Action::Terminate
                            },
                        }
                    },
                    Err(e) => {
                        let mut m = String::from_str("Error reading stdout: ");
                        m.append(e.as_str());
                        self.outcome = Some(Err(m));
                        self.phase = Phase::Terminating;
                        Action::Terminate
                    },
                }
            },
            (Phase::Terminating, Event::Terminated) => {
                let oc = self.outcome.take();
                match oc {
                    Some(o) => {
                        self.phase = Phase::Finished;
                        Action::Finish(o)
                    },
                    None => unreached(),
                }
            },
            _ => unreached(),
        }
    }
}

/// Whether the session's record of sent and received lines, and of
/// spawning, is unchanged from `pre` to `post`.
pub open spec fn same_log(pre: Session, post: Session) -> bool {
    &&& post.sent@ == pre.sent@
    &&& post.received@ == pre.received@
    &&& post.spawn_requested@ == pre.spawn_requested@
}

/// The session's transition relation: what one `step` on `event` does
/// to the session, and which action it returns.
pub open spec fn step_spec(pre: Session, event: Event, post: Session, a: Action) -> bool {
    &&& post.op == pre.op
    &&& post.path == pre.path
    &&& post.tool == pre.tool
    &&& post.args == pre.args
    &&& match (pre.phase, event) {
        (Phase::CheckingPath, Event::PathChecked(found)) => {
            if found {
                &&& a is ReadMetadata
                &&& post.phase is ReadingMetadata
                &&& post.outcome == pre.outcome
                &&& same_log(pre, post)
            } else {
                &&& (a matches Action::Finish(oc) && oc matches Err(m) && m@ == not_found_spec(
                    pre.path@,
                ))
                &&& post.phase is Finished
                &&& same_log(pre, post)
            }
        },
        (Phase::ReadingMetadata, Event::MetadataRead(res)) => match res {
            Ok(_) => {
                &&& a == Action::SetPermissions(EXECUTABLE_MODE)
                &&& post.phase is SettingPermissions
                &&& post.outcome == pre.outcome
                &&& same_log(pre, post)
            },
            Err(e) => {
                &&& (a matches Action::Finish(oc) && oc matches Err(m) && m@ == metadata_error_spec(
                    e@,
                ))
                &&& post.phase is Finished
                &&& same_log(pre, post)
            },
        },
        (Phase::SettingPermissions, Event::PermissionsSet(res)) => match res {
            Ok(_) => {
                &&& a is Spawn
                &&& post.phase is Spawning
                &&& post.outcome == pre.outcome
                &&& post.spawn_requested@
                &&& post.sent@ == pre.sent@
                &&& post.received@ == pre.received@
            },
            Err(e) => {
                &&& (a matches Action::Finish(oc) && oc matches Err(m) && m@ == chmod_error_spec(
                    e@,
                ))
                &&& post.phase is Finished
                &&& same_log(pre, post)
            },
        },
        (Phase::Spawning, Event::Spawned(res)) => match res {
            Ok(pipes) => {
                if pipes.0 && pipes.1 {
                    &&& (a matches Action::WriteLine(l) && l@ == list_line_spec())
                    &&& post.phase is SendingList
                    &&& post.sent@ == pre.sent@.push(list_line_spec())
                    &&& post.received@ == pre.received@
                    &&& post.spawn_requested@ == pre.spawn_requested@
                    &&& post.outcome == pre.outcome
                } else {
                    &&& a is Terminate
                    &&& post.phase is Terminating
                    &&& (post.outcome matches Some(oc) && oc matches Err(m) && (if !pipes.0 {
                        m@ == "Failed to open stdin"@
                    } else {
                        m@ == "Failed to open stdout"@
                    }))
                    &&& same_log(pre, post)
                }
            },
            Err(e) => {
                &&& (a matches Action::Finish(oc) && oc matches Err(m) && m@ == spawn_error_spec(
                    pre.path@,
                    e@,
                ))
                &&& post.phase is Finished
                &&& same_log(pre, post)
            },
        },
        (Phase::SendingList, Event::LineWritten(res)) => match res {
            Ok(_) => {
                &&& a is ReadLine
                &&& post.phase is ReadingList
                &&& post.outcome == pre.outcome
                &&& same_log(pre, post)
            },
            Err(e) => {
                &&& a is Terminate
                &&& post.phase is Terminating
                &&& (post.outcome matches Some(oc) && oc matches Err(m) && m@ == write_error_spec(
                    e@,
                ))
                &&& same_log(pre, post)
            },
        },
        (Phase::ReadingList, Event::LineRead(res)) => match res {
            Ok(line) => {
                &&& post.received@ == pre.received@.push(line@)
                &&& post.sent@ == pre.sent@
                &&& post.spawn_requested@ == pre.spawn_requested@
                &&& match decode_spec(line@) {
                    Ok(resp) => match pre.op {
                        Op::ListTools => {
                            &&& a is Terminate
                            &&& post.phase is Terminating
                            &&& (post.outcome matches Some(oc) && match resp.result {
                                None => (oc matches Err(m) && m@
                                    == "tools/list response missing result"@),
                                Some(res_val) => match json_member(res_val, "tools"@) {
                                    None => (oc matches Err(m) && m@
                                        == "tools key not found in result"@),
                                    Some(tools) => oc == Ok::<serde_json::Value, String>(tools),
                                },
                            })
                        },
                        Op::CallTool => {
                            &&& a == Action::Pause(PAUSE_MILLIS)
                            &&& post.phase is Pausing
                            &&& post.outcome == pre.outcome
                        },
                    },
                    Err(m) => {
                        &&& a is Terminate
                        &&& post.phase is Terminating
                        &&& (post.outcome matches Some(oc) && oc matches Err(t) && t@ == m)
                    },
                }
            },
            Err(e) => {
                &&& a is Terminate
                &&& post.phase is Terminating
                &&& (post.outcome matches Some(oc) && oc matches Err(m) && m@ == read_error_spec(
                    e@,
                ))
                &&& same_log(pre, post)
            },
        },
        (Phase::Pausing, Event::Paused) => {
            &&& (pre.args matches Some(ar) && {
                &&& (a matches Action::WriteLine(l) && l@ == call_line_spec(pre.tool@, ar))
                &&& post.sent@ == pre.sent@.push(call_line_spec(pre.tool@, ar))
            })
            &&& post.phase is SendingCall
            &&& post.received@ == pre.received@
            &&& post.spawn_requested@ == pre.spawn_requested@
            &&& post.outcome == pre.outcome
        },
        (Phase::SendingCall, Event::LineWritten(res)) => match res {
            Ok(_) => {
                &&& a is ReadLine
                &&& post.phase is ReadingCall
                &&& post.outcome == pre.outcome
                &&& same_log(pre, post)
            },
            Err(e) => {
                &&& a is Terminate
                &&& post.phase is Terminating
                &&& (post.outcome matches Some(oc) && oc matches Err(m) && m@ == write_error_spec(
                    e@,
                ))
                &&& same_log(pre, post)
            },
        },
        (Phase::ReadingCall, Event::LineRead(res)) => match res {
            Ok(line) => {
                &&& post.received@ == pre.received@.push(line@)
                &&& post.sent@ == pre.sent@
                &&& post.spawn_requested@ == pre.spawn_requested@
                &&& a is Terminate
                &&& post.phase is Terminating
                &&& match decode_spec(line@) {
                    Ok(resp) => (post.outcome matches Some(oc) && match resp.result {
                        None => (oc matches Err(m) && m@ == "tools/call response missing result"@),
                        Some(res_val) => match json_member(res_val, "content"@) {
                            Some(content) => oc == Ok::<serde_json::Value, String>(content),
                            None => (oc matches Ok(v) && json_is_null(v)),
                        },
                    }),
                    Err(m) => (post.outcome matches Some(oc) && oc matches Err(t) && t@ == m),
                }
            },
            Err(e) => {
                &&& a is Terminate
                &&& post.phase is Terminating
                &&& (post.outcome matches Some(oc) && oc matches Err(m) && m@ == read_error_spec(
                    e@,
                ))
                &&& same_log(pre, post)
            },
        },
        (Phase::Terminating, Event::Terminated) => {
            &&& (pre.outcome matches Some(oc) && a == Action::Finish(oc))
            &&& post.phase is Finished
            &&& post.outcome is None
            &&& same_log(pre, post)
        },
        _ => false,
    }
}

/// Law: a listing session that awaits its response has sent exactly
/// one line, the listing request with id 1.
pub proof fn law_list_single_request(s: Session)
    requires
        s.wf(),
        s.phase is ReadingList,
    ensures
        s.sent@ == seq![list_line_spec()],
{
}

/// Law: a call session that awaits the reply to the tool call has sent
/// exactly two lines, in order: the listing request with id 1, then
/// the call request with id 2, carrying the tool's name and the
/// caller's arguments.
pub proof fn law_call_requests_in_order(s: Session)
    requires
        s.wf(),
        s.phase is ReadingCall,
    ensures
        s.args matches Some(a) && s.sent@ == seq![list_line_spec(), call_line_spec(s.tool@, a)],
{
}

/// Law: a successful outcome is exactly what the provider's responses
/// carried.  For a listing, it is the `tools` member of the single
/// response's `result`.  For a call, it is the `content` member of the
/// second response's `result`, or the null value when `content` is
/// absent.
pub proof fn law_outcome_faithful(s: Session)
    requires
        s.wf(),
        s.phase is Terminating,
    ensures
        match s.outcome {
            Some(Ok(v)) => match s.op {
                Op::ListTools => {
                    &&& s.received@.len() == 1
                    &&& listed_tools_spec(s.received@[0]) == Some(v)
                },
                Op::CallTool => {
                    &&& s.received@.len() == 2
                    &&& match call_content_spec(s.received@[1]) {
                        Some(mc) => match mc {
                            Some(c) => v == c,
                            None => json_is_null(v),
                        },
                        None => false,
                    }
                },
            },
            _ => true,
        },
{
}

/// Law: a step finishes the session directly — without termination
/// having been asked for — only where no process can be running: while
/// no spawn was requested yet, or when the spawn itself just failed.
/// Every other path to `Finish` passes through the `Terminating`
/// phase, which only the `Terminate` action leads to.
pub proof fn law_no_process_left_behind(pre: Session, event: Event, post: Session, a: Action)
    requires
        pre.wf(),
        pre.event_fits(event),
        step_spec(pre, event, post, a),
        a is Finish,
    ensures
        pre.phase is Terminating || !pre.spawn_requested@ || (event matches Event::Spawned(r)
            && r is Err),
{
}

/// Law: while the session still checks the path or the permissions, no
/// spawn has been asked for and nothing has been sent; together with
/// the transition relation, a missing path finishes the session with
/// its failure before any process is spawned.
pub proof fn law_no_spawn_before_check(s: Session)
    requires
        s.wf(),
        s.phase is CheckingPath || s.phase is ReadingMetadata || s.phase is SettingPermissions,
    ensures
        !s.spawn_requested@,
        s.sent@.len() == 0,
{
}

} // verus!
