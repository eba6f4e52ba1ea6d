//! Closure-based event handler registry.
//!
//! An agent owns one `Handler`. The connectivity engine's events are handed
//! to the four dispatch methods; each invokes the registered closure exactly
//! once per event, and is a no-op when the slot is empty. Closures must be
//! safe to invoke from a thread the application did not create, so they are
//! required to be `Send + Sync`; the engine serializes the callbacks of one
//! agent, so a closure is never invoked concurrently with itself.

use vstd::prelude::*;
use crate::state::State;

verus! {

/// Holds up to four optional event closures: state change, local candidate
/// discovered, gathering complete, and data received.
pub struct Handler<S, C, G, R> where
    S: Fn(State),
    C: Fn(String),
    G: Fn(),
    R: Fn(&[u8]),
 {
    /// Session state change handler.
    pub on_state_change: Option<S>,
    /// Local candidate handler.
    pub on_candidate_found: Option<C>,
    /// Gathering stage finish handler.
    pub on_gathering_finished: Option<G>,
    /// Incoming packet handler.
    pub on_packet: Option<R>,
}

impl<S, C, G, R> Handler<S, C, G, R> where
    S: Fn(State),
    C: Fn(String),
    G: Fn(),
    R: Fn(&[u8]),
 {
    /// Every registered closure accepts every event payload: dispatch may
    /// invoke it on whatever the engine reports.
    pub open spec fn wf(self) -> bool {
        &&& (self.on_state_change matches Some(f) ==> forall|s: State| call_requires(f, (s,)))
        &&& (self.on_candidate_found matches Some(f) ==> forall|c: String|
            call_requires(f, (c,)))
        &&& (self.on_gathering_finished matches Some(f) ==> call_requires(f, ()))
        &&& (self.on_packet matches Some(f) ==> forall|p: &[u8]| call_requires(f, (p,)))
    }

    /// Set the session state change handler.
    pub fn state_handler<S2>(self, f: S2) -> (r: Handler<S2, C, G, R>) where
        S2: Fn(State) + Send + Sync + 'static,

        requires
            forall|s: State| call_requires(f, (s,)),
        ensures
            self.wf() ==> r.wf(),
            r.on_state_change == Some(f),
            r.on_candidate_found == self.on_candidate_found,
            r.on_gathering_finished == self.on_gathering_finished,
            r.on_packet == self.on_packet,
    {
        Handler {
            on_state_change: Some(f),
            on_candidate_found: self.on_candidate_found,
            on_gathering_finished: self.on_gathering_finished,
            on_packet: self.on_packet,
        }
    }

    /// Set the local candidate handler.
    pub fn candidate_handler<C2>(self, f: C2) -> (r: Handler<S, C2, G, R>) where
        C2: Fn(String) + Send + Sync + 'static,

        requires
            forall|c: String| call_requires(f, (c,)),
        ensures
            self.wf() ==> r.wf(),
            r.on_candidate_found == Some(f),
            r.on_state_change == self.on_state_change,
            r.on_gathering_finished == self.on_gathering_finished,
            r.on_packet == self.on_packet,
    {
        Handler {
            on_state_change: self.on_state_change,
            on_candidate_found: Some(f),
            on_gathering_finished: self.on_gathering_finished,
            on_packet: self.on_packet,
        }
    }

    /// Set the gathering done handler.
    pub fn gathering_done_handler<G2>(self, f: G2) -> (r: Handler<S, C, G2, R>) where
        G2: Fn() + Send + Sync + 'static,

        requires
            call_requires(f, ()),
        ensures
            self.wf() ==> r.wf(),
            r.on_gathering_finished == Some(f),
            r.on_state_change == self.on_state_change,
            r.on_candidate_found == self.on_candidate_found,
            r.on_packet == self.on_packet,
    {
        Handler {
            on_state_change: self.on_state_change,
            on_candidate_found: self.on_candidate_found,
            on_gathering_finished: Some(f),
            on_packet: self.on_packet,
        }
    }

    /// Set the incoming packet handler.
    pub fn recv_handler<R2>(self, f: R2) -> (r: Handler<S, C, G, R2>) where
        R2: Fn(&[u8]) + Send + Sync + 'static,

        requires
            forall|p: &[u8]| call_requires(f, (p,)),
        ensures
            self.wf() ==> r.wf(),
            r.on_packet == Some(f),
            r.on_state_change == self.on_state_change,
            r.on_candidate_found == self.on_candidate_found,
            r.on_gathering_finished == self.on_gathering_finished,
    {
        Handler {
            on_state_change: self.on_state_change,
            on_candidate_found: self.on_candidate_found,
            on_gathering_finished: self.on_gathering_finished,
            on_packet: Some(f),
        }
    }

    /// Deliver a state change: invokes the registered closure once with the
    /// new state, or does nothing when the slot is empty.
    pub fn on_state_changed(&self, state: State) -> (fired: bool)
        requires
            self.wf(),
        ensures
            fired == (self.on_state_change is Some),
            self.on_state_change matches Some(f) ==> call_ensures(f, (state,), ()),
    {
        match &self.on_state_change {
            Some(f) => {
                f(state);
                true
            },
            None => false,
        }
    }

    /// Deliver a discovered local candidate: invokes the registered closure
    /// once with the candidate text, or does nothing when the slot is empty.
    pub fn on_candidate(&self, candidate: String) -> (fired: bool)
        requires
            self.wf(),
        ensures
            fired == (self.on_candidate_found is Some),
            self.on_candidate_found matches Some(f) ==> call_ensures(f, (candidate,), ()),
    {
        match &self.on_candidate_found {
            Some(f) => {
                f(candidate);
                true
            },
            None => false,
        }
    }

    /// Deliver the end of gathering: invokes the registered closure once, or
    /// does nothing when the slot is empty.
    pub fn on_gathering_done(&self) -> (fired: bool)
        requires
            self.wf(),
        ensures
            fired == (self.on_gathering_finished is Some),
            self.on_gathering_finished matches Some(f) ==> call_ensures(f, (), ()),
    {
        match &self.on_gathering_finished {
            Some(f) => {
                f();
                true
            },
            None => false,
        }
    }

    /// Deliver an inbound packet: invokes the registered closure once with
    /// the very bytes received, borrowed for the duration of the call, or
    /// does nothing when the slot is empty.
    pub fn on_recv(&self, packet: &[u8]) -> (fired: bool)
        requires
            self.wf(),
        ensures
            fired == (self.on_packet is Some),
            self.on_packet matches Some(f) ==> call_ensures(f, (packet,), ()),
    {
        match &self.on_packet {
            Some(f) => {
                f(packet);
                true
            },
            None => false,
        }
    }
}

/// A handler with all four slots empty; every dispatched event is then a
/// no-op until closures are registered with the fluent setters.
pub fn empty_handler() -> (r: Handler<
    impl Fn(State),
    impl Fn(String),
    impl Fn(),
    impl Fn(&[u8]),
>)
    ensures
        r.wf(),
        r.on_state_change is None,
        r.on_candidate_found is None,
        r.on_gathering_finished is None,
        r.on_packet is None,
{
    let s = (|state: State| {});
    let c = (|candidate: String| {});
    let g = (|| {});
    let p = (|packet: &[u8]| {});
    let mut r = Handler {
        on_state_change: Some(s),
        on_candidate_found: Some(c),
        on_gathering_finished: Some(g),
        on_packet: Some(p),
    };
    r.on_state_change = None;
    r.on_candidate_found = None;
    r.on_gathering_finished = None;
    r.on_packet = None;
    r
}

} // verus!
