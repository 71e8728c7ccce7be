//! Dispatch of events about the relay itself.

use vstd::prelude::*;
use crate::events::system::SystemEvent;
use crate::webtransport::docker::{silent, Turn};

verus! {

/// Takes up an event about the relay itself. None of them asks for a call
/// on the runtime or for a response.
pub fn handle_message(event: &SystemEvent) -> (turn: Turn)
    ensures
        turn@ == silent(None),
{
    match event {
        SystemEvent::SystemStatus => {
            let turn = Turn { responses: Vec::new(), next: None, fault: None };
            assert(turn.responses.deep_view() =~= Seq::empty());
            turn
        },
    }
}

} // verus!
