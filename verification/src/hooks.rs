//! The hook phase between event generation and event application.

use vstd::prelude::*;
use crate::events::GameEvent;

verus! {

/// Passes the events of the tick through the part hooks. No part hooks
/// into events yet, so the events come out as they went in.
pub fn process_hooks(events: &mut Vec<GameEvent>)
    ensures
        final(events)@ == old(events)@,
{
}

} // verus!
