use crate::messages::ServerMessage;
use crate::tools::{ToolInvocation, valid_invocations, validate_batch};
use vstd::prelude::*;

verus! {

/// The turn-completion tracker's states. Every submitted event starts a
/// round in `AwaitingModel`; the round moves to `Streaming` on the first
/// server content or tool call, and to a terminal state on the server's
/// flags.
#[derive(Clone, Copy, Debug, PartialEq, Eq, Structural)]
pub enum TurnState {
    AwaitingModel,
    Streaming,
    TurnComplete,
    Interrupted,
}

/// A server message that ends the current round: server content flagged
/// interrupted or turn-complete.
pub open spec fn is_terminal(m: ServerMessage) -> bool {
    m matches ServerMessage::ServerContent(sc) && (sc.interrupted || sc.turn_complete)
}

/// The tracker's transition: terminal states persist for the rest of the
/// round; otherwise server content and tool calls move the round along,
/// with the interrupted flag taking precedence over turn completion, and
/// any other message leaves the state unchanged.
pub open spec fn spec_turn_step(s: TurnState, m: ServerMessage) -> TurnState {
    match s {
        TurnState::TurnComplete => s,
        TurnState::Interrupted => s,
        _ => match m {
            ServerMessage::ServerContent(sc) => {
                if sc.interrupted {
                    TurnState::Interrupted
                } else if sc.turn_complete {
                    TurnState::TurnComplete
                } else {
                    TurnState::Streaming
                }
            },
            ServerMessage::ToolCall(_) => TurnState::Streaming,
            ServerMessage::Other => s,
        },
    }
}

/// Advance the turn-completion tracker by one server message.
pub fn turn_step(s: TurnState, m: &ServerMessage) -> (r: TurnState)
    ensures
        r == spec_turn_step(s, *m),
{
    match s {
        TurnState::TurnComplete => s,
        TurnState::Interrupted => s,
        _ => match m {
            ServerMessage::ServerContent(sc) => {
                if sc.interrupted {
                    TurnState::Interrupted
                } else if sc.turn_complete {
                    TurnState::TurnComplete
                } else {
                    TurnState::Streaming
                }
            },
            ServerMessage::ToolCall(_) => TurnState::Streaming,
            ServerMessage::Other => s,
        },
    }
}

/// From a round still in progress, the tracker reaches a terminal state on
/// exactly the messages that end a round.
pub proof fn lemma_tracker_matches_round_end(s: TurnState, m: ServerMessage)
    requires
        s == TurnState::AwaitingModel || s == TurnState::Streaming,
    ensures
        (spec_turn_step(s, m) == TurnState::TurnComplete || spec_turn_step(s, m)
            == TurnState::Interrupted) <==> is_terminal(m),
{
}

/// How one round ended.
#[derive(Clone, Copy, Debug, PartialEq, Eq, Structural)]
pub enum RoundEnd {
    TurnComplete,
    Interrupted,
    StreamClosed,
}

/// The plan of one round over the server messages it received, in order:
/// the invocations owed a response, and how the round ended. Messages after
/// the first terminal one contribute nothing.
pub open spec fn spec_round_plan(msgs: Seq<ServerMessage>) -> (Seq<ToolInvocation>, RoundEnd)
    decreases msgs.len(),
{
    if msgs.len() == 0 {
        (Seq::empty(), RoundEnd::StreamClosed)
    } else {
        match msgs.first() {
            ServerMessage::ServerContent(sc) => {
                if sc.interrupted {
                    (Seq::empty(), RoundEnd::Interrupted)
                } else if sc.turn_complete {
                    (Seq::empty(), RoundEnd::TurnComplete)
                } else {
                    spec_round_plan(msgs.drop_first())
                }
            },
            ServerMessage::ToolCall(tc) => {
                let (rest, end) = spec_round_plan(msgs.drop_first());
                (valid_invocations(tc.function_calls@) + rest, end)
            },
            ServerMessage::Other => spec_round_plan(msgs.drop_first()),
        }
    }
}

/// Plan one round from the server messages it received: every valid
/// invocation before the first terminal message, in arrival order, and how
/// the round ended.
pub fn plan_round(msgs: &Vec<ServerMessage>) -> (r: (Vec<ToolInvocation>, RoundEnd))
    ensures
        r.0@ == spec_round_plan(msgs@).0,
        r.1 == spec_round_plan(msgs@).1,
{
    let mut acc: Vec<ToolInvocation> = Vec::new();
    let mut i: usize = 0;
    proof {
        assert(msgs@.skip(0) =~= msgs@);
        assert(Seq::<ToolInvocation>::empty() + spec_round_plan(msgs@).0 =~= spec_round_plan(
            msgs@,
        ).0);
    }
    while i < msgs.len()
        invariant
            i <= msgs@.len(),
            spec_round_plan(msgs@).0 == acc@ + spec_round_plan(msgs@.skip(i as int)).0,
            spec_round_plan(msgs@).1 == spec_round_plan(msgs@.skip(i as int)).1,
        decreases msgs@.len() - i,
    {
        proof {
            assert(msgs@.skip(i as int).first() == msgs@[i as int]);
            assert(msgs@.skip(i as int).drop_first() =~= msgs@.skip(i + 1));
        }
        match &msgs[i] {
            ServerMessage::ServerContent(sc) => {
                if sc.interrupted {
                    proof {
                        assert(acc@ + Seq::<ToolInvocation>::empty() =~= acc@);
                    }
                    return (acc, RoundEnd::Interrupted);
                } else if sc.turn_complete {
                    proof {
                        assert(acc@ + Seq::<ToolInvocation>::empty() =~= acc@);
                    }
                    return (acc, RoundEnd::TurnComplete);
                }
            },
            ServerMessage::ToolCall(tc) => {
                let mut vs = validate_batch(&tc.function_calls);
                proof {
                    assert(acc@ + (vs@ + spec_round_plan(msgs@.skip(i + 1)).0) =~= (acc@ + vs@)
                        + spec_round_plan(msgs@.skip(i + 1)).0);
                }
                acc.append(&mut vs);
            },
            ServerMessage::Other => {},
        }
        i += 1;
    }
    proof {
        assert(msgs@.skip(msgs@.len() as int) =~= Seq::<ServerMessage>::empty());
        assert(acc@ + Seq::<ToolInvocation>::empty() =~= acc@);
    }
    (acc, RoundEnd::StreamClosed)
}

/// An interrupting (or turn-completing) server message ends the round: the
/// plan owes no response for any tool call that arrives after it, whatever
/// else follows on the stream.
pub proof fn lemma_terminal_message_stops_round(msgs: Seq<ServerMessage>, i: int)
    requires
        0 <= i < msgs.len(),
        is_terminal(msgs[i]),
    ensures
        spec_round_plan(msgs).0 == spec_round_plan(msgs.take(i)).0,
    decreases i,
{
    if i == 0 {
        assert(msgs.take(0) =~= Seq::<ServerMessage>::empty());
    } else {
        assert(msgs.take(i).first() == msgs.first());
        assert(msgs.take(i).drop_first() =~= msgs.drop_first().take(i - 1));
        assert(msgs.drop_first()[i - 1] == msgs[i]);
        lemma_terminal_message_stops_round(msgs.drop_first(), i - 1);
    }
}

} // verus!
