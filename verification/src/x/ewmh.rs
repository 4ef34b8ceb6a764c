//! Changes of state that clients ask for by the conventions of extended
//! window managers.
use vstd::prelude::*;
use crate::types::{without, NetWindowStates};
use crate::x::base::Atom;
use crate::x::event::ClientMessageData;

verus! {

/// In a request to change the state of a window: take the states out.
pub const STATE_REMOVE: u32 = 0;

/// In a request to change the state of a window: put the states in.
pub const STATE_ADD: u32 = 1;

/// In a request to change the state of a window: put in the states that
/// are out, and take out those that are in.
pub const STATE_TOGGLE: u32 = 2;

/// A list of states with one more at its end, unless the state is 0, which
/// stands for none.
pub open spec fn with_state(states: Seq<Atom>, state: Atom) -> Seq<Atom> {
    if state != 0 {
        states.push(state)
    } else {
        states
    }
}

/// A list of states without the first occurrence of one, unless the state
/// is 0, which stands for none.
pub open spec fn without_state(states: Seq<Atom>, state: Atom) -> Seq<Atom> {
    if state != 0 {
        without(states, state)
    } else {
        states
    }
}

/// The states of a window after a client's message about them. The
/// message holds what is to be done, and up to two states. Only messages
/// of 32-bit numbers count, and toggling changes nothing.
pub open spec fn changed_states(states: Seq<Atom>, data: ClientMessageData) -> Seq<Atom> {
    match data {
        ClientMessageData::U32(data) => if data[0] == STATE_ADD {
            with_state(with_state(states, data[1]), data[2])
        } else if data[0] == STATE_REMOVE {
            without_state(without_state(states, data[1]), data[2])
        } else {
            states
        },
        _ => states,
    }
}

/// Changes the states of a window as a client's message asks.
pub fn handle_wm_state(states: &mut NetWindowStates, data: ClientMessageData)
    ensures
        final(states)@ == changed_states(old(states)@, data),
{
    if let ClientMessageData::U32(data) = data {
        let action = data[0];
        let prop1 = data[1];
        let prop2 = data[2];

        if action == STATE_ADD {
            if prop1 != 0 {
                states.add(prop1);
            }
            if prop2 != 0 {
                states.add(prop2);
            }
        } else if action == STATE_REMOVE {
            if prop1 != 0 {
                states.remove(prop1);
            }
            if prop2 != 0 {
                states.remove(prop2);
            }
        }
    }
}

} // verus!
