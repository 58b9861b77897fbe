//! The events of an agent session that are reported to the user's program,
//! and their JSON form: a `type` tag, then the fields under kebab-case names,
//! with absent optional fields left out.
use vstd::prelude::*;

use crate::json::{
    array_text, bool_text, decimal_text, json_str, object_text, plain_text, quote_json, quote_plain, quoted,
    render_array, render_bool, render_object, render_u32,
};

verus! {

/// Type of approval being requested from the user.
#[derive(Debug, Clone, Copy, PartialEq, Eq, Structural)]
pub enum ApprovalType {
    /// Shell command execution approval
    Exec,
    /// File edit/patch approval
    Patch,
    /// MCP tool input (elicitation) approval
    Elicitation,
}

impl ApprovalType {
    /// The name of the approval type on the wire.
    pub open spec fn wire_name(self) -> Seq<char> {
        match self {
            ApprovalType::Exec => "exec"@,
            ApprovalType::Patch => "patch"@,
            ApprovalType::Elicitation => "elicitation"@,
        }
    }

    /// The name of the approval type on the wire.
    pub fn as_str(&self) -> (r: &'static str)
        ensures
            r@ == self.wire_name(),
    {
        match self {
            ApprovalType::Exec => "exec",
            ApprovalType::Patch => "patch",
            ApprovalType::Elicitation => "elicitation",
        }
    }
}

/// A notification could not be written as JSON.
#[derive(Debug, Clone, Copy, PartialEq, Eq, Structural)]
pub struct SerializeError;

/// Notification events sent to the program that the user configured.
///
/// Each one is written as a JSON object (see `to_json`) and handed to that
/// program as its last argument.
#[derive(Debug, Clone, PartialEq)]
#[allow(inconsistent_fields)]
pub enum UserNotification {
    /// A new session starts.
    SessionStart {
        thread_id: String,
        cwd: String,
        /// Process ID of the agent's process.
        pid: u32,
    },
    /// A session ends.
    SessionEnd { thread_id: String },
    /// The user submits a prompt: the agent starts working.
    UserPromptSubmit {
        thread_id: String,
        turn_id: String,
        cwd: String,
        /// The prompt text submitted by the user.
        prompt: String,
    },
    /// The agent needs the user's approval. Exec and patch approvals carry
    /// `turn_id`; elicitation approvals carry `request_id`.
    ApprovalRequested {
        thread_id: String,
        turn_id: Option<String>,
        request_id: Option<String>,
        approval_type: ApprovalType,
        /// Human-readable description of what needs approval.
        description: String,
    },
    /// The user answers an approval request. Correlated as `ApprovalRequested`.
    ApprovalResponse {
        thread_id: String,
        turn_id: Option<String>,
        request_id: Option<String>,
        approved: bool,
    },
    /// The agent completes a turn.
    AgentTurnComplete {
        thread_id: String,
        turn_id: String,
        cwd: String,
        /// Messages that the user sent to start the turn.
        input_messages: Vec<String>,
        /// The last message of the assistant in the turn.
        last_assistant_message: Option<String>,
    },
    /// The user interrupts the agent while it works.
    TurnCancelled { thread_id: String, turn_id: String },
}

/// The member `key` with the JSON string of `s`.
pub open spec fn text_member(key: Seq<char>, s: String) -> (Seq<char>, Seq<char>) {
    (key, json_str(s@))
}

/// The member `key` with the JSON string of `o`'s value, or no member at all.
pub open spec fn optional_member(key: Seq<char>, o: Option<String>) -> Seq<(Seq<char>, Seq<char>)> {
    match o {
        Some(s) => seq![text_member(key, s)],
        None => seq![],
    }
}

/// The JSON strings of the messages, in order.
pub open spec fn quoted_all(msgs: Seq<String>) -> Seq<Seq<char>> {
    msgs.map_values(|m: String| json_str(m@))
}


/// `s` with every underscore turned into a hyphen.
pub open spec fn kebab(s: Seq<char>) -> Seq<char> {
    s.map_values(|c: char| if c == '_' { '-' } else { c })
}

/// The keys of the members, in order.
pub open spec fn keys(ms: Seq<(Seq<char>, Seq<char>)>) -> Seq<Seq<char>> {
    ms.map_values(|m: (Seq<char>, Seq<char>)| m.0)
}

/// The JSON string of `s`, quotes and escapes included.
pub fn quote(s: &str) -> (r: Result<String, SerializeError>)
    ensures
        r is Ok,
        r matches Ok(j) ==> j@ == json_str(s@),
        r matches Ok(j) ==> (plain_text(s@) ==> j@ == quoted(s@)),
{
    match quote_json(s) {
        Ok(j) => Ok(j),
        Err(_) => Err(SerializeError),
    }
}

/// Adds the member `key` with an already rendered value.
fn push_member(ms: &mut Vec<(String, String)>, key: &str, value: String)
    ensures
        final(ms).deep_view() == old(ms).deep_view().push((key@, value@)),
{
    ms.push((String::from_str(key), value));
    proof {
        assert(final(ms).deep_view() =~= old(ms).deep_view().push((key@, value@)));
    }
}

/// Adds the member `key` with the JSON string of `s`.
fn push_text(ms: &mut Vec<(String, String)>, key: &str, s: &String) -> (r: Result<(), SerializeError>)
    ensures
        r is Ok,
        final(ms).deep_view() == old(ms).deep_view().push(text_member(key@, *s)),
{
    let v = quote(s.as_str())?;
    push_member(ms, key, v);
    Ok(())
}

/// Adds the member `key` with the JSON string of `o`'s value, if there is one.
fn push_optional(ms: &mut Vec<(String, String)>, key: &str, o: &Option<String>) -> (r: Result<
    (),
    SerializeError,
>)
    ensures
        r is Ok,
        final(ms).deep_view() == old(ms).deep_view() + optional_member(key@, *o),
{
    match o {
        Some(s) => {
            push_text(ms, key, s)?;
            proof {
                assert(final(ms).deep_view() =~= old(ms).deep_view() + optional_member(key@, *o));
            }
            Ok(())
        },
        None => {
            assert(old(ms).deep_view() + optional_member(key@, *o) =~= old(ms).deep_view());
            Ok(())
        },
    }
}

/// The JSON array of the messages, each written as a JSON string.
fn quote_messages(msgs: &Vec<String>) -> (r: Result<String, SerializeError>)
    ensures
        r is Ok,
        r matches Ok(j) ==> j@ == array_text(quoted_all(msgs@)),
{
    let mut items: Vec<String> = Vec::new();
    let mut i: usize = 0;
    while i < msgs.len()
        invariant
            i <= msgs.len(),
            items.deep_view() == quoted_all(msgs@.subrange(0, i as int)),
        decreases msgs.len() - i,
    {
        let q = quote(msgs[i].as_str())?;
        let ghost before = items.deep_view();
        items.push(q);
        proof {
            let done = msgs@.subrange(0, i as int);
            assert(msgs@.subrange(0, i + 1) =~= done.push(msgs@[i as int]));
            assert(items.deep_view() =~= before.push(q@));
            assert(quoted_all(done.push(msgs@[i as int])) =~= quoted_all(done).push(
                json_str(msgs@[i as int]@),
            ));
        }
        i = i + 1;
    }
    assert(msgs@.subrange(0, msgs.len() as int) =~= msgs@);
    Ok(render_array(&items))
}

impl UserNotification {
    /// The value of the `type` tag: the variant's name in kebab case.
    pub open spec fn tag(&self) -> Seq<char> {
        match self {
            UserNotification::SessionStart { .. } => "session-start"@,
            UserNotification::SessionEnd { .. } => "session-end"@,
            UserNotification::UserPromptSubmit { .. } => "user-prompt-submit"@,
            UserNotification::ApprovalRequested { .. } => "approval-requested"@,
            UserNotification::ApprovalResponse { .. } => "approval-response"@,
            UserNotification::AgentTurnComplete { .. } => "agent-turn-complete"@,
            UserNotification::TurnCancelled { .. } => "turn-cancelled"@,
        }
    }

    /// The members of the JSON object, in order: the tag, then the fields
    /// that are present, under their kebab-case names.
    pub open spec fn members(&self) -> Seq<(Seq<char>, Seq<char>)> {
        let head = seq![("type"@, quoted(self.tag()))];
        match self {
            UserNotification::SessionStart { thread_id, cwd, pid } => head + seq![
                text_member("thread-id"@, *thread_id),
                text_member("cwd"@, *cwd),
                ("pid"@, decimal_text(*pid as nat)),
            ],
            UserNotification::SessionEnd { thread_id } => head + seq![
                text_member("thread-id"@, *thread_id),
            ],
            UserNotification::UserPromptSubmit { thread_id, turn_id, cwd, prompt } => head + seq![
                text_member("thread-id"@, *thread_id),
                text_member("turn-id"@, *turn_id),
                text_member("cwd"@, *cwd),
                text_member("prompt"@, *prompt),
            ],
            UserNotification::ApprovalRequested {
                thread_id,
                turn_id,
                request_id,
                approval_type,
                description,
            } => head + seq![text_member("thread-id"@, *thread_id)] + optional_member(
                "turn-id"@,
                *turn_id,
            ) + optional_member("request-id"@, *request_id) + seq![
                ("approval-type"@, quoted(approval_type.wire_name())),
                text_member("description"@, *description),
            ],
            UserNotification::ApprovalResponse { thread_id, turn_id, request_id, approved } => head
                + seq![text_member("thread-id"@, *thread_id)] + optional_member("turn-id"@, *turn_id)
                + optional_member("request-id"@, *request_id) + seq![
                ("approved"@, bool_text(*approved)),
            ],
            UserNotification::AgentTurnComplete {
                thread_id,
                turn_id,
                cwd,
                input_messages,
                last_assistant_message,
            } => head + seq![
                text_member("thread-id"@, *thread_id),
                text_member("turn-id"@, *turn_id),
                text_member("cwd"@, *cwd),
                ("input-messages"@, array_text(quoted_all(input_messages@))),
            ] + optional_member("last-assistant-message"@, *last_assistant_message),
            UserNotification::TurnCancelled { thread_id, turn_id } => head + seq![
                text_member("thread-id"@, *thread_id),
                text_member("turn-id"@, *turn_id),
            ],
        }
    }

    /// The variant's name in snake case.
    pub open spec fn variant_name(&self) -> Seq<char> {
        match self {
            UserNotification::SessionStart { .. } => "session_start"@,
            UserNotification::SessionEnd { .. } => "session_end"@,
            UserNotification::UserPromptSubmit { .. } => "user_prompt_submit"@,
            UserNotification::ApprovalRequested { .. } => "approval_requested"@,
            UserNotification::ApprovalResponse { .. } => "approval_response"@,
            UserNotification::AgentTurnComplete { .. } => "agent_turn_complete"@,
            UserNotification::TurnCancelled { .. } => "turn_cancelled"@,
        }
    }

    /// The names of the variant's fields, in declaration order, without the
    /// optional ones that are absent.
    pub open spec fn field_names(&self) -> Seq<Seq<char>> {
        match self {
            UserNotification::SessionStart { .. } => seq!["thread_id"@, "cwd"@, "pid"@],
            UserNotification::SessionEnd { .. } => seq!["thread_id"@],
            UserNotification::UserPromptSubmit { .. } => seq![
                "thread_id"@,
                "turn_id"@,
                "cwd"@,
                "prompt"@,
            ],
            UserNotification::ApprovalRequested { turn_id, request_id, .. } => seq!["thread_id"@]
                + (if turn_id.is_some() {
                seq!["turn_id"@]
            } else {
                seq![]
            }) + (if request_id.is_some() {
                seq!["request_id"@]
            } else {
                seq![]
            }) + seq!["approval_type"@, "description"@],
            UserNotification::ApprovalResponse { turn_id, request_id, .. } => seq!["thread_id"@]
                + (if turn_id.is_some() {
                seq!["turn_id"@]
            } else {
                seq![]
            }) + (if request_id.is_some() {
                seq!["request_id"@]
            } else {
                seq![]
            }) + seq!["approved"@],
            UserNotification::AgentTurnComplete { last_assistant_message, .. } => seq![
                "thread_id"@,
                "turn_id"@,
                "cwd"@,
                "input_messages"@,
            ] + (if last_assistant_message.is_some() {
                seq!["last_assistant_message"@]
            } else {
                seq![]
            }),
            UserNotification::TurnCancelled { .. } => seq!["thread_id"@, "turn_id"@],
        }
    }

    /// The JSON text of the notification.
    pub open spec fn json(&self) -> Seq<char> {
        object_text(self.members())
    }

    /// Writes the notification as one JSON object: the `type` tag first, then
    /// the fields in declaration order under kebab-case names, with absent
    /// optional fields left out.
    ///
    /// Writing a string as JSON does not fail, so neither does this.
    pub fn to_json(&self) -> (r: Result<String, SerializeError>)
        ensures
            r is Ok,
            r matches Ok(j) ==> j@ == self.json(),
    {
        let mut ms: Vec<(String, String)> = Vec::new();
        let tag = quote_plain(self.tag_str());
        push_member(&mut ms, "type", tag);
        match self {
            UserNotification::SessionStart { thread_id, cwd, pid } => {
                push_text(&mut ms, "thread-id", thread_id)?;
                push_text(&mut ms, "cwd", cwd)?;
                push_member(&mut ms, "pid", render_u32(*pid));
            },
            UserNotification::SessionEnd { thread_id } => {
                push_text(&mut ms, "thread-id", thread_id)?;
            },
            UserNotification::UserPromptSubmit { thread_id, turn_id, cwd, prompt } => {
                push_text(&mut ms, "thread-id", thread_id)?;
                push_text(&mut ms, "turn-id", turn_id)?;
                push_text(&mut ms, "cwd", cwd)?;
                push_text(&mut ms, "prompt", prompt)?;
            },
            UserNotification::ApprovalRequested {
                thread_id,
                turn_id,
                request_id,
                approval_type,
                description,
            } => {
                push_text(&mut ms, "thread-id", thread_id)?;
                push_optional(&mut ms, "turn-id", turn_id)?;
                push_optional(&mut ms, "request-id", request_id)?;
                push_member(&mut ms, "approval-type", quote_plain(approval_type.as_str()));
                push_text(&mut ms, "description", description)?;
            },
            UserNotification::ApprovalResponse { thread_id, turn_id, request_id, approved } => {
                push_text(&mut ms, "thread-id", thread_id)?;
                push_optional(&mut ms, "turn-id", turn_id)?;
                push_optional(&mut ms, "request-id", request_id)?;
                push_member(&mut ms, "approved", render_bool(*approved));
            },
            UserNotification::AgentTurnComplete {
                thread_id,
                turn_id,
                cwd,
                input_messages,
                last_assistant_message,
            } => {
                push_text(&mut ms, "thread-id", thread_id)?;
                push_text(&mut ms, "turn-id", turn_id)?;
                push_text(&mut ms, "cwd", cwd)?;
                push_member(&mut ms, "input-messages", quote_messages(input_messages)?);
                push_optional(&mut ms, "last-assistant-message", last_assistant_message)?;
            },
            UserNotification::TurnCancelled { thread_id, turn_id } => {
                push_text(&mut ms, "thread-id", thread_id)?;
                push_text(&mut ms, "turn-id", turn_id)?;
            },
        }
        assert(ms.deep_view() =~= self.members());
        Ok(render_object(&ms))
    }

    /// The value of the `type` tag.
    pub fn tag_str(&self) -> (r: &'static str)
        ensures
            r@ == self.tag(),
    {
        match self {
            UserNotification::SessionStart { .. } => "session-start",
            UserNotification::SessionEnd { .. } => "session-end",
            UserNotification::UserPromptSubmit { .. } => "user-prompt-submit",
            UserNotification::ApprovalRequested { .. } => "approval-requested",
            UserNotification::ApprovalResponse { .. } => "approval-response",
            UserNotification::AgentTurnComplete { .. } => "agent-turn-complete",
            UserNotification::TurnCancelled { .. } => "turn-cancelled",
        }
    }
}

/// The JSON object of every notification starts with the member `type`, whose
/// value is the variant's name with hyphens for underscores; the members
/// after it are the fields that are present, in declaration order, each under
/// its name with hyphens for underscores.
pub proof fn lemma_tag_and_field_keys(n: UserNotification)
    ensures
        n.members()[0] == ("type"@, quoted(kebab(n.variant_name()))),
        keys(n.members().drop_first()) == n.field_names().map_values(|f: Seq<char>| kebab(f)),
{
    reveal_strlit("session_start");
    reveal_strlit("session-start");
    reveal_strlit("session_end");
    reveal_strlit("session-end");
    reveal_strlit("user_prompt_submit");
    reveal_strlit("user-prompt-submit");
    reveal_strlit("approval_requested");
    reveal_strlit("approval-requested");
    reveal_strlit("approval_response");
    reveal_strlit("approval-response");
    reveal_strlit("agent_turn_complete");
    reveal_strlit("agent-turn-complete");
    reveal_strlit("turn_cancelled");
    reveal_strlit("turn-cancelled");
    reveal_strlit("thread_id");
    reveal_strlit("thread-id");
    reveal_strlit("turn_id");
    reveal_strlit("turn-id");
    reveal_strlit("request_id");
    reveal_strlit("request-id");
    reveal_strlit("approval_type");
    reveal_strlit("approval-type");
    reveal_strlit("input_messages");
    reveal_strlit("input-messages");
    reveal_strlit("last_assistant_message");
    reveal_strlit("last-assistant-message");
    reveal_strlit("cwd");
    reveal_strlit("pid");
    reveal_strlit("prompt");
    reveal_strlit("description");
    reveal_strlit("approved");
    assert(kebab(n.variant_name()) =~= n.tag());
    assert(kebab("thread_id"@) =~= "thread-id"@);
    assert(kebab("turn_id"@) =~= "turn-id"@);
    assert(kebab("request_id"@) =~= "request-id"@);
    assert(kebab("approval_type"@) =~= "approval-type"@);
    assert(kebab("input_messages"@) =~= "input-messages"@);
    assert(kebab("last_assistant_message"@) =~= "last-assistant-message"@);
    assert(kebab("cwd"@) =~= "cwd"@);
    assert(kebab("pid"@) =~= "pid"@);
    assert(kebab("prompt"@) =~= "prompt"@);
    assert(kebab("description"@) =~= "description"@);
    assert(kebab("approved"@) =~= "approved"@);
    assert(keys(n.members().drop_first()) =~= n.field_names().map_values(|f: Seq<char>| kebab(f)));
}

/// An approval request or response with a turn id and no request id has the
/// member `turn-id` and no member `request-id`; with a request id and no turn
/// id, the other way round.
pub proof fn lemma_correlation_member(n: UserNotification)
    requires
        n is ApprovalRequested || n is ApprovalResponse,
    ensures
        ({
            let (turn_id, request_id) = match n {
                UserNotification::ApprovalRequested { turn_id, request_id, .. } => (
                    turn_id,
                    request_id,
                ),
                UserNotification::ApprovalResponse { turn_id, request_id, .. } => (
                    turn_id,
                    request_id,
                ),
                _ => (None, None),
            };
            &&& turn_id is Some && request_id is None ==> keys(n.members()).contains("turn-id"@)
                && !keys(n.members()).contains("request-id"@)
            &&& turn_id is None && request_id is Some ==> keys(n.members()).contains(
                "request-id"@,
            ) && !keys(n.members()).contains("turn-id"@)
        }),
{
    reveal_strlit("type");
    reveal_strlit("thread-id");
    reveal_strlit("turn-id");
    reveal_strlit("request-id");
    reveal_strlit("approval-type");
    reveal_strlit("description");
    reveal_strlit("approved");
    let ks = keys(n.members());
    match n {
        UserNotification::ApprovalRequested { turn_id, request_id, .. } => {
            if turn_id is Some && request_id is None {
                assert(ks =~= seq!["type"@, "thread-id"@, "turn-id"@, "approval-type"@, "description"@]);
                assert(ks[2] == "turn-id"@);
                assert forall|i: int| 0 <= i < ks.len() implies ks[i] != "request-id"@ by {
                    assert(ks[i].len() != "request-id"@.len() || ks[i][0] != "request-id"@[0] || ks[i] == "turn-id"@);
                }
            }
            if turn_id is None && request_id is Some {
                assert(ks =~= seq!["type"@, "thread-id"@, "request-id"@, "approval-type"@, "description"@]);
                assert(ks[2] == "request-id"@);
                assert forall|i: int| 0 <= i < ks.len() implies ks[i] != "turn-id"@ by {
                    assert(ks[i].len() != "turn-id"@.len() || ks[i][0] != "turn-id"@[0] || ks[i] == "request-id"@);
                }
            }
        },
        UserNotification::ApprovalResponse { turn_id, request_id, .. } => {
            if turn_id is Some && request_id is None {
                assert(ks =~= seq!["type"@, "thread-id"@, "turn-id"@, "approved"@]);
                assert(ks[2] == "turn-id"@);
                assert forall|i: int| 0 <= i < ks.len() implies ks[i] != "request-id"@ by {
                    assert(ks[i].len() != "request-id"@.len() || ks[i][0] != "request-id"@[0] || ks[i] == "turn-id"@);
                }
            }
            if turn_id is None && request_id is Some {
                assert(ks =~= seq!["type"@, "thread-id"@, "request-id"@, "approved"@]);
                assert(ks[2] == "request-id"@);
                assert forall|i: int| 0 <= i < ks.len() implies ks[i] != "turn-id"@ by {
                    assert(ks[i].len() != "turn-id"@.len() || ks[i][0] != "turn-id"@[0] || ks[i] == "request-id"@);
                }
            }
        },
        _ => {},
    }
}

} // verus!
