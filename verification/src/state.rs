//! The session state of an agent, and the transitions the connectivity engine
//! may drive it through.

use vstd::prelude::*;

verus! {

/// The connectivity state of one agent's session.
///
/// A session starts in `New`, moves to `Gathering` when candidate discovery is
/// requested, and is then driven by the connectivity engine: `Connecting`
/// while checks run, `Connected` once a first working pair is found,
/// `Completed` once the checks have settled. `Disconnected` is reached from
/// `Connected` or `Completed` when the selected pair stops working, and
/// `Failed` from any other state when no viable pair can be found.
#[derive(Clone, Copy, Debug, PartialEq, Eq, Structural)]
pub enum State {
    New,
    Gathering,
    Connecting,
    Connected,
    Completed,
    Failed,
    Disconnected,
}

/// States in which a candidate pair has been selected and datagrams may flow.
pub open spec fn has_connectivity(s: State) -> bool {
    s == State::Connected || s == State::Completed
}

/// The transitions the connectivity engine itself may report, once a session
/// is underway. The move from `New` to `Gathering` is not here: it is made by
/// the agent when gathering is requested, not reported by the engine.
pub open spec fn engine_step(from: State, to: State) -> bool {
    ||| (from == State::Gathering && to == State::Connecting)
    ||| (from == State::Connecting && to == State::Connected)
    ||| (from == State::Connected && to == State::Completed)
    ||| ((from == State::Connected || from == State::Completed) && to == State::Disconnected)
    ||| (from != State::Failed && to == State::Failed)
}

/// Every engine-reported transition is an actual change of state.
pub proof fn lemma_engine_step_changes_state(from: State, to: State)
    requires
        engine_step(from, to),
    ensures
        from != to,
{
}

impl State {
    /// Decodes the numeric state code used by the connectivity engine.
    ///
    /// The engine numbers its states `0` through `5`: disconnected,
    /// gathering, connecting, connected, completed, failed. It has no
    /// distinct code for a freshly created session, so `New` is never
    /// returned; any other code is unknown and yields `None`.
    pub fn from_engine_code(code: u32) -> (r: Option<State>)
        ensures
            r == (match code {
                0u32 => Some(State::Disconnected),
                1u32 => Some(State::Gathering),
                2u32 => Some(State::Connecting),
                3u32 => Some(State::Connected),
                4u32 => Some(State::Completed),
                5u32 => Some(State::Failed),
                _ => None::<State>,
            }),
    {
        match code {
            0u32 => Some(State::Disconnected),
            1u32 => Some(State::Gathering),
            2u32 => Some(State::Connecting),
            3u32 => Some(State::Connected),
            4u32 => Some(State::Completed),
            5u32 => Some(State::Failed),
            _ => None,
        }
    }
}

} // verus!
