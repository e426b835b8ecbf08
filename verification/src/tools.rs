use crate::messages::{ArgValue, ClientMessage, FunctionCall};
use crate::text::{parse_id, spec_parse_id, str_eq};
use vstd::prelude::*;

verus! {

/// The first argument entry under `key`, if any.
pub open spec fn lookup_arg(args: Seq<(String, ArgValue)>, key: Seq<char>) -> Option<ArgValue>
    decreases args.len(),
{
    if args.len() == 0 {
        None
    } else if args[0].0@ == key {
        Some(args[0].1)
    } else {
        lookup_arg(args.drop_first(), key)
    }
}

/// The string argument under `key`: present and string-typed, or nothing.
pub open spec fn string_arg(args: Seq<(String, ArgValue)>, key: Seq<char>) -> Option<String> {
    match lookup_arg(args, key) {
        Some(ArgValue::Str(s)) => Some(s),
        _ => None,
    }
}

/// Find the string argument under `key`, if present with a string value.
pub fn get_string_arg<'a>(args: &'a Vec<(String, ArgValue)>, key: &str) -> (r: Option<&'a String>)
    ensures
        match string_arg(args@, key@) {
            Some(s) => r matches Some(x) && *x == s,
            None => r is None,
        },
{
    let mut i: usize = 0;
    proof {
        assert(args@.skip(0) =~= args@);
    }
    while i < args.len()
        invariant
            i <= args@.len(),
            lookup_arg(args@, key@) == lookup_arg(args@.skip(i as int), key@),
        decreases args@.len() - i,
    {
        proof {
            assert(args@.skip(i as int)[0] == args@[i as int]);
            assert(args@.skip(i as int).drop_first() =~= args@.skip(i + 1));
        }
        let entry = &args[i];
        if str_eq(entry.0.as_str(), key) {
            match &entry.1 {
                ArgValue::Str(s) => {
                    return Some(s);
                },
                _ => {
                    return None;
                },
            }
        }
        i += 1;
    }
    None
}

/// A tool call whose required arguments were all present and string-typed,
/// with the raw argument strings and the originating call's id.
#[derive(Clone, Debug, PartialEq)]
pub enum ToolInvocation {
    Send { id: String, channel_id: String, content: String },
    React { id: String, channel_id: String, message_id: String, emoji: String },
    Edit { id: String, channel_id: String, message_id: String, new_content: String },
    Delete { id: String, channel_id: String, message_id: String },
}

/// The id of the call an invocation answers.
pub open spec fn invocation_id(inv: ToolInvocation) -> Seq<char> {
    match inv {
        ToolInvocation::Send { id, .. } => id@,
        ToolInvocation::React { id, .. } => id@,
        ToolInvocation::Edit { id, .. } => id@,
        ToolInvocation::Delete { id, .. } => id@,
    }
}

/// The registered tool name an invocation belongs to.
pub open spec fn invocation_name(inv: ToolInvocation) -> Seq<char> {
    match inv {
        ToolInvocation::Send { .. } => "discord_send_message"@,
        ToolInvocation::React { .. } => "discord_react_to_message"@,
        ToolInvocation::Edit { .. } => "discord_edit_message"@,
        ToolInvocation::Delete { .. } => "discord_delete_message"@,
    }
}

/// Validate one function call: the name must be a registered tool and every
/// required argument must be present with a string value; otherwise the
/// call is skipped and no response is owed for it.
pub open spec fn spec_validate(c: FunctionCall) -> Option<ToolInvocation> {
    if c.name@ == "discord_send_message"@ {
        match (string_arg(c.args@, "channel_id"@), string_arg(c.args@, "content"@)) {
            (Some(channel_id), Some(content)) => Some(
                ToolInvocation::Send { id: c.id, channel_id, content },
            ),
            _ => None,
        }
    } else if c.name@ == "discord_react_to_message"@ {
        match (
            string_arg(c.args@, "channel_id"@),
            string_arg(c.args@, "message_id"@),
            string_arg(c.args@, "emoji"@),
        ) {
            (Some(channel_id), Some(message_id), Some(emoji)) => Some(
                ToolInvocation::React { id: c.id, channel_id, message_id, emoji },
            ),
            _ => None,
        }
    } else if c.name@ == "discord_edit_message"@ {
        match (
            string_arg(c.args@, "channel_id"@),
            string_arg(c.args@, "message_id"@),
            string_arg(c.args@, "new_content"@),
        ) {
            (Some(channel_id), Some(message_id), Some(new_content)) => Some(
                ToolInvocation::Edit { id: c.id, channel_id, message_id, new_content },
            ),
            _ => None,
        }
    } else if c.name@ == "discord_delete_message"@ {
        match (string_arg(c.args@, "channel_id"@), string_arg(c.args@, "message_id"@)) {
            (Some(channel_id), Some(message_id)) => Some(
                ToolInvocation::Delete { id: c.id, channel_id, message_id },
            ),
            _ => None,
        }
    } else {
        None
    }
}

/// Validate one function call against the registered tools.
pub fn validate_call(c: &FunctionCall) -> (r: Option<ToolInvocation>)
    ensures
        r == spec_validate(*c),
{
    if str_eq(c.name.as_str(), "discord_send_message") {
        match (get_string_arg(&c.args, "channel_id"), get_string_arg(&c.args, "content")) {
            (Some(channel_id), Some(content)) => Some(
                ToolInvocation::Send {
                    id: c.id.clone(),
                    channel_id: channel_id.clone(),
                    content: content.clone(),
                },
            ),
            _ => None,
        }
    } else if str_eq(c.name.as_str(), "discord_react_to_message") {
        match (
            get_string_arg(&c.args, "channel_id"),
            get_string_arg(&c.args, "message_id"),
            get_string_arg(&c.args, "emoji"),
        ) {
            (Some(channel_id), Some(message_id), Some(emoji)) => Some(
                ToolInvocation::React {
                    id: c.id.clone(),
                    channel_id: channel_id.clone(),
                    message_id: message_id.clone(),
                    emoji: emoji.clone(),
                },
            ),
            _ => None,
        }
    } else if str_eq(c.name.as_str(), "discord_edit_message") {
        match (
            get_string_arg(&c.args, "channel_id"),
            get_string_arg(&c.args, "message_id"),
            get_string_arg(&c.args, "new_content"),
        ) {
            (Some(channel_id), Some(message_id), Some(new_content)) => Some(
                ToolInvocation::Edit {
                    id: c.id.clone(),
                    channel_id: channel_id.clone(),
                    message_id: message_id.clone(),
                    new_content: new_content.clone(),
                },
            ),
            _ => None,
        }
    } else if str_eq(c.name.as_str(), "discord_delete_message") {
        match (get_string_arg(&c.args, "channel_id"), get_string_arg(&c.args, "message_id")) {
            (Some(channel_id), Some(message_id)) => Some(
                ToolInvocation::Delete {
                    id: c.id.clone(),
                    channel_id: channel_id.clone(),
                    message_id: message_id.clone(),
                },
            ),
            _ => None,
        }
    } else {
        None
    }
}

/// The invocations of a tool-call batch, in call order: one per valid call,
/// none for a skipped call.
pub open spec fn valid_invocations(calls: Seq<FunctionCall>) -> Seq<ToolInvocation> {
    calls.filter_map(|c: FunctionCall| spec_validate(c))
}

/// Validate a whole tool-call batch, keeping call order.
pub fn validate_batch(calls: &Vec<FunctionCall>) -> (r: Vec<ToolInvocation>)
    ensures
        r@ == valid_invocations(calls@),
{
    let mut r: Vec<ToolInvocation> = Vec::new();
    let mut i: usize = 0;
    proof {
        assert(calls@.take(0).filter_map(|c: FunctionCall| spec_validate(c))
            =~= Seq::<ToolInvocation>::empty());
    }
    while i < calls.len()
        invariant
            i <= calls@.len(),
            r@ == calls@.take(i as int).filter_map(|c: FunctionCall| spec_validate(c)),
        decreases calls@.len() - i,
    {
        proof {
            calls@.lemma_filter_map_take_succ(|c: FunctionCall| spec_validate(c), i as int);
        }
        match validate_call(&calls[i]) {
            Some(inv) => {
                r.push(inv);
            },
            None => {},
        }
        i += 1;
    }
    proof {
        assert(calls@.take(calls@.len() as int) =~= calls@);
    }
    r
}

/// The positions of the valid calls of a batch, in call order.
pub open spec fn valid_indices(calls: Seq<FunctionCall>) -> Seq<int>
    decreases calls.len(),
{
    if calls.len() == 0 {
        Seq::empty()
    } else if spec_validate(calls.last()) is Some {
        valid_indices(calls.drop_last()).push(calls.len() - 1)
    } else {
        valid_indices(calls.drop_last())
    }
}

/// Response discipline for one tool-call batch: exactly one invocation is
/// planned per valid call, in the order the calls came; each planned
/// invocation answers the id of its call; and only calls whose required
/// arguments were missing or mistyped are skipped.
pub proof fn lemma_batch_response_discipline(calls: Seq<FunctionCall>)
    ensures
        valid_invocations(calls).len() == valid_indices(calls).len(),
        forall|k: int|
            0 <= k < valid_indices(calls).len() ==> 0 <= #[trigger] valid_indices(calls)[k]
                < calls.len(),
        forall|k: int|
            0 <= k < valid_indices(calls).len() ==> spec_validate(
                calls[#[trigger] valid_indices(calls)[k]],
            ) == Some(valid_invocations(calls)[k]),
        forall|k: int|
            0 <= k < valid_indices(calls).len() ==> invocation_id(
                #[trigger] valid_invocations(calls)[k],
            ) == calls[valid_indices(calls)[k]].id@,
        forall|k: int|
            0 <= k && k + 1 < valid_indices(calls).len() ==> #[trigger] valid_indices(calls)[k]
                < valid_indices(calls)[k + 1],
        forall|i: int|
            0 <= i < calls.len() && spec_validate(#[trigger] calls[i]) is Some ==> valid_indices(
                calls,
            ).contains(i),
    decreases calls.len(),
{
    let f = |c: FunctionCall| spec_validate(c);
    if calls.len() > 0 {
        let rest = calls.drop_last();
        lemma_batch_response_discipline(rest);
        assert forall|i: int|
            0 <= i < calls.len() && spec_validate(#[trigger] calls[i]) is Some implies valid_indices(
            calls,
        ).contains(i) by {
            if i < calls.len() - 1 {
                assert(rest[i] == calls[i]);
                assert(valid_indices(rest).contains(i));
                let k = choose|k: int|
                    0 <= k < valid_indices(rest).len() && valid_indices(rest)[k] == i;
                if spec_validate(calls.last()) is Some {
                    assert(valid_indices(calls)[k] == i);
                } else {
                    assert(valid_indices(calls)[k] == i);
                }
            } else {
                if spec_validate(calls.last()) is Some {
                    assert(valid_indices(calls).last() == i);
                }
            }
        }
    }
}

/// One chat-surface side effect, with its identifiers parsed.
#[derive(Clone, Debug, PartialEq)]
pub enum Action {
    SendMessage { channel_id: u64, content: String },
    ReactToMessage { channel_id: u64, message_id: u64, emoji: String },
    EditMessage { channel_id: u64, message_id: u64, new_content: String },
    DeleteMessage { channel_id: u64, message_id: u64 },
}

/// Parse an invocation's identifiers into the action to perform. The
/// channel id is parsed first, so a call with two bad identifiers reports
/// the channel.
pub fn action_of(inv: &ToolInvocation) -> (r: Result<Action, String>)
    ensures
        match *inv {
            ToolInvocation::Send { id, channel_id, content } => match spec_parse_id(channel_id@) {
                Some(n) => r matches Ok(a) && a == (Action::SendMessage {
                    channel_id: n,
                    content,
                }),
                None => r matches Err(e) && e@ == "failed to parse channel_id"@,
            },
            ToolInvocation::React { id, channel_id, message_id, emoji } => match (
                spec_parse_id(channel_id@),
                spec_parse_id(message_id@),
            ) {
                (Some(c), Some(m)) => r matches Ok(a) && a == (Action::ReactToMessage {
                    channel_id: c,
                    message_id: m,
                    emoji,
                }),
                (None, _) => r matches Err(e) && e@ == "failed to parse channel_id"@,
                (Some(_), None) => r matches Err(e) && e@ == "failed to parse message_id"@,
            },
            ToolInvocation::Edit { id, channel_id, message_id, new_content } => match (
                spec_parse_id(channel_id@),
                spec_parse_id(message_id@),
            ) {
                (Some(c), Some(m)) => r matches Ok(a) && a == (Action::EditMessage {
                    channel_id: c,
                    message_id: m,
                    new_content,
                }),
                (None, _) => r matches Err(e) && e@ == "failed to parse channel_id"@,
                (Some(_), None) => r matches Err(e) && e@ == "failed to parse message_id"@,
            },
            ToolInvocation::Delete { id, channel_id, message_id } => match (
                spec_parse_id(channel_id@),
                spec_parse_id(message_id@),
            ) {
                (Some(c), Some(m)) => r matches Ok(a) && a == (Action::DeleteMessage {
                    channel_id: c,
                    message_id: m,
                }),
                (None, _) => r matches Err(e) && e@ == "failed to parse channel_id"@,
                (Some(_), None) => r matches Err(e) && e@ == "failed to parse message_id"@,
            },
        },
{
    match inv {
        ToolInvocation::Send { id: _, channel_id, content } => match parse_id(
            channel_id.as_str(),
        ) {
            Some(n) => Ok(Action::SendMessage { channel_id: n, content: content.clone() }),
            None => Err("failed to parse channel_id".to_owned()),
        },
        ToolInvocation::React { id: _, channel_id, message_id, emoji } => match parse_id(
            channel_id.as_str(),
        ) {
            Some(c) => match parse_id(message_id.as_str()) {
                Some(m) => Ok(
                    Action::ReactToMessage {
                        channel_id: c,
                        message_id: m,
                        emoji: emoji.clone(),
                    },
                ),
                None => Err("failed to parse message_id".to_owned()),
            },
            None => Err("failed to parse channel_id".to_owned()),
        },
        ToolInvocation::Edit { id: _, channel_id, message_id, new_content } => match parse_id(
            channel_id.as_str(),
        ) {
            Some(c) => match parse_id(message_id.as_str()) {
                Some(m) => Ok(
                    Action::EditMessage {
                        channel_id: c,
                        message_id: m,
                        new_content: new_content.clone(),
                    },
                ),
                None => Err("failed to parse message_id".to_owned()),
            },
            None => Err("failed to parse channel_id".to_owned()),
        },
        ToolInvocation::Delete { id: _, channel_id, message_id } => match parse_id(
            channel_id.as_str(),
        ) {
            Some(c) => match parse_id(message_id.as_str()) {
                Some(m) => Ok(Action::DeleteMessage { channel_id: c, message_id: m }),
                None => Err("failed to parse message_id".to_owned()),
            },
            None => Err("failed to parse channel_id".to_owned()),
        },
    }
}

/// The registered name of the tool an invocation belongs to.
pub fn name_of(inv: &ToolInvocation) -> (r: &'static str)
    ensures
        r@ == invocation_name(*inv),
{
    match inv {
        ToolInvocation::Send { .. } => "discord_send_message",
        ToolInvocation::React { .. } => "discord_react_to_message",
        ToolInvocation::Edit { .. } => "discord_edit_message",
        ToolInvocation::Delete { .. } => "discord_delete_message",
    }
}

/// The status text reported to the model after a send attempt: on success
/// it names the channel and the new message's id; on failure it carries the
/// error text and suggests the channel of the triggering event.
pub fn send_message_status(
    channel_id: &str,
    outcome: &Result<String, String>,
    fallback_channel: &str,
) -> (r: String)
    ensures
        match *outcome {
            Ok(new_message_id) => r@ == "successfully sent your message to channel_id="@
                + channel_id@ + " message_id="@ + new_message_id@,
            Err(e) => r@ == "failed to send your message to channel_id="@ + channel_id@
                + ", maybe try again with channel_id="@ + fallback_channel@
                + "? heres the error: "@ + e@,
        },
{
    match outcome {
        Ok(new_message_id) => {
            let mut r: String = String::from_str("successfully sent your message to channel_id=");
            r.append(channel_id);
            r.append(" message_id=");
            r.append(new_message_id.as_str());
            r
        },
        Err(e) => {
            let mut r: String = String::from_str("failed to send your message to channel_id=");
            r.append(channel_id);
            r.append(", maybe try again with channel_id=");
            r.append(fallback_channel);
            r.append("? heres the error: ");
            r.append(e.as_str());
            r
        },
    }
}

/// The status text after a react or edit attempt: on success it confirms
/// the channel and message acted on; on failure it carries the error text
/// and suggests the identifiers of the triggering event.
pub fn react_to_message_status(
    channel_id: &str,
    message_id: &str,
    outcome: &Result<(), String>,
    fallback_channel: &str,
    fallback_message: &str,
) -> (r: String)
    ensures
        match *outcome {
            Ok(_) => r@ == "successfully reacted to channel_id="@ + channel_id@ + " message_id="@
                + message_id@,
            Err(e) => r@ == "failed to react to channel_id="@ + channel_id@ + " message_id="@
                + message_id@ + ", maybe try again with channel_id="@ + fallback_channel@
                + " message_id="@ + fallback_message@ + "? heres the error: "@ + e@,
        },
{
    match outcome {
        Ok(_) => {
            let mut r: String = String::from_str("successfully reacted to channel_id=");
            r.append(channel_id);
            r.append(" message_id=");
            r.append(message_id);
            r
        },
        Err(e) => {
            let mut r: String = String::from_str("failed to react to channel_id=");
            r.append(channel_id);
            r.append(" message_id=");
            r.append(message_id);
            r.append(", maybe try again with channel_id=");
            r.append(fallback_channel);
            r.append(" message_id=");
            r.append(fallback_message);
            r.append("? heres the error: ");
            r.append(e.as_str());
            r
        },
    }
}

/// The status text after an edit attempt. It confirms or reports the
/// attempt in the same wording as a react attempt.
pub fn edit_message_status(
    channel_id: &str,
    message_id: &str,
    outcome: &Result<(), String>,
    fallback_channel: &str,
    fallback_message: &str,
) -> (r: String)
    ensures
        match *outcome {
            Ok(_) => r@ == "successfully reacted to channel_id="@ + channel_id@ + " message_id="@
                + message_id@,
            Err(e) => r@ == "failed to react to channel_id="@ + channel_id@ + " message_id="@
                + message_id@ + ", maybe try again with channel_id="@ + fallback_channel@
                + " message_id="@ + fallback_message@ + "? heres the error: "@ + e@,
        },
{
    react_to_message_status(channel_id, message_id, outcome, fallback_channel, fallback_message)
}

/// The status text after a delete attempt: on success it confirms the
/// deleted message; on failure it carries the error text.
pub fn delete_message_status(channel_id: &str, message_id: &str, outcome: &Result<(), String>) -> (r:
    String)
    ensures
        match *outcome {
            Ok(_) => r@ == "successfully deleted message channel_id="@ + channel_id@
                + " message_id="@ + message_id@,
            Err(e) => r@ == "failed to delete message channel_id="@ + channel_id@ + " message_id="@
                + message_id@ + ", heres the error: "@ + e@,
        },
{
    match outcome {
        Ok(_) => {
            let mut r: String = String::from_str("successfully deleted message channel_id=");
            r.append(channel_id);
            r.append(" message_id=");
            r.append(message_id);
            r
        },
        Err(e) => {
            let mut r: String = String::from_str("failed to delete message channel_id=");
            r.append(channel_id);
            r.append(" message_id=");
            r.append(message_id);
            r.append(", heres the error: ");
            r.append(e.as_str());
            r
        },
    }
}

/// The message answers the given invocation: one tool response carrying the
/// invocation's call id, its tool name, and the status text as output.
pub open spec fn is_tool_response_for(
    m: ClientMessage,
    inv: ToolInvocation,
    output: Seq<char>,
) -> bool {
    &&& m matches ClientMessage::ToolResponse(tr)
    &&& m matches ClientMessage::ToolResponse(tr) ==> {
        &&& tr.function_responses@.len() == 1
        &&& tr.function_responses@[0].id@ == invocation_id(inv)
        &&& tr.function_responses@[0].name@ == invocation_name(inv)
        &&& tr.function_responses@[0].output@ == output
    }
}

/// Pair each invocation with its status text, in order: one tool-response
/// message per invocation, each answering its call's id.
pub fn responses_for(invocations: &Vec<ToolInvocation>, statuses: &Vec<String>) -> (r: Vec<
    ClientMessage,
>)
    requires
        invocations@.len() == statuses@.len(),
    ensures
        r@.len() == invocations@.len(),
        forall|i: int|
            0 <= i < r@.len() ==> is_tool_response_for(r@[i], invocations@[i], statuses@[i]@),
{
    let mut r: Vec<ClientMessage> = Vec::new();
    let mut i: usize = 0;
    while i < invocations.len()
        invariant
            i <= invocations@.len(),
            invocations@.len() == statuses@.len(),
            r@.len() == i,
            forall|j: int|
                0 <= j < i ==> is_tool_response_for(r@[j], invocations@[j], statuses@[j]@),
        decreases invocations@.len() - i,
    {
        let inv = &invocations[i];
        let id: String = match inv {
            ToolInvocation::Send { id, .. } => id.clone(),
            ToolInvocation::React { id, .. } => id.clone(),
            ToolInvocation::Edit { id, .. } => id.clone(),
            ToolInvocation::Delete { id, .. } => id.clone(),
        };
        let name: String = name_of(inv).to_owned();
        let output: String = statuses[i].clone();
        r.push(crate::messages::tool_response_message(id, name, output));
        i += 1;
    }
    r
}

} // verus!
