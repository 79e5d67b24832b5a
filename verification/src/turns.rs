//! The state of a turn, read from the events recorded for its run.
use vstd::prelude::*;

use crate::http::{uuid_text, uuid_to_string};
use crate::messages::opt_view;
use crate::text::str_eq;

verus! {

/// The states a turn can be reported in.
#[derive(Debug, Clone, Copy, PartialEq, Eq)]
pub enum TurnState {
    /// Still being processed: no terminal event recorded yet.
    Running,
    /// Finished cleanly: the last recorded event is `done`.
    Completed,
    /// Ended with an `agent_error` event.
    Errored,
    /// No events for the turn, or they belong to another conversation.
    Unknown,
}

/// The status of a turn.
#[derive(Debug, Clone)]
pub struct TurnStatusResponse {
    pub turn_id: String,
    pub conversation_id: String,
    pub state: TurnState,
    /// When the most recent event was recorded (RFC 3339); `None` when the
    /// state is unknown.
    pub last_event_at: Option<String>,
    /// Kind of the most recent event; `None` when the state is unknown.
    pub last_event_kind: Option<String>,
}

/// An event recorded for a run.
#[derive(Debug, Clone)]
pub struct TurnEvent {
    /// The conversation, as the text of its UUID.
    pub conversation_id: String,
    pub event_type: String,
    /// When the event was recorded, RFC 3339.
    pub created_at: String,
}

/// The state that the last event of a turn shows.
pub open spec fn state_of_kind(kind: Seq<char>) -> TurnState {
    if kind == "done"@ {
        TurnState::Completed
    } else if kind == "agent_error"@ {
        TurnState::Errored
    } else {
        TurnState::Running
    }
}

/// Whether the recorded events say nothing about the turn in this
/// conversation: there are none, or the first belongs to another
/// conversation.
pub open spec fn turn_unknown(events: Seq<TurnEvent>, conversation_id: u128) -> bool {
    events.len() == 0 || events[0].conversation_id@ != uuid_text(conversation_id)
}

/// The status of a turn from the events recorded for its run, in order.
pub fn turn_status(turn_id: u128, conversation_id: u128, events: &[TurnEvent]) -> (r:
    TurnStatusResponse)
    ensures
        r.turn_id@ == uuid_text(turn_id),
        r.conversation_id@ == uuid_text(conversation_id),
        turn_unknown(events@, conversation_id) ==> r.state == TurnState::Unknown
            && r.last_event_at is None && r.last_event_kind is None,
        !turn_unknown(events@, conversation_id) ==> {
            let last = events@.last();
            &&& r.state == state_of_kind(last.event_type@)
            &&& opt_view(r.last_event_at) == Some(last.created_at@)
            &&& opt_view(r.last_event_kind) == Some(last.event_type@)
        },
{
    let turn_id_str = uuid_to_string(turn_id);
    let conv_id_str = uuid_to_string(conversation_id);
    if events.len() == 0 || !str_eq(events[0].conversation_id.as_str(), conv_id_str.as_str()) {
        return TurnStatusResponse {
            turn_id: turn_id_str,
            conversation_id: conv_id_str,
            state: TurnState::Unknown,
            last_event_at: None,
            last_event_kind: None,
        };
    }
    let last = &events[events.len() - 1];
    let kind = last.event_type.clone();
    let state = if str_eq(kind.as_str(), "done") {
        TurnState::Completed
    } else if str_eq(kind.as_str(), "agent_error") {
        TurnState::Errored
    } else {
        TurnState::Running
    };
    TurnStatusResponse {
        turn_id: turn_id_str,
        conversation_id: conv_id_str,
        state,
        last_event_at: Some(last.created_at.clone()),
        last_event_kind: Some(kind),
    }
}

/// A turn whose last event ends runs is reported finished: completed after
/// `done`, errored after `agent_error`; any other last event leaves it
/// running.
pub proof fn law_terminal_event_ends_turn(kind: Seq<char>)
    ensures
        crate::messages::is_terminal_spec(kind) <==> (state_of_kind(kind) == TurnState::Completed
            || state_of_kind(kind) == TurnState::Errored),
        state_of_kind(kind) != TurnState::Unknown,
{
}

/// A run whose recording ended with its terminal event is reported by that
/// event: completed after `done`, errored after `agent_error`, which is
/// also how a cancelled turn ends.
pub proof fn law_run_end_sets_turn_state(t: crate::messages::TerminalEvent)
    ensures
        state_of_kind(t.event_name()) == (if t is Done {
            TurnState::Completed
        } else {
            TurnState::Errored
        }),
{
    reveal_strlit("done");
    reveal_strlit("agent_error");
    assert("done"@ != "agent_error"@) by {
        assert("done"@.len() != "agent_error"@.len());
    }
}

} // verus!
