//! The agent: one ICE session's lifecycle, from creation through candidate
//! gathering, description and candidate exchange, connectivity and data
//! transfer.
//!
//! The agent is the decision layer of the session. The connectivity engine
//! performs the network work (gathering, checks, transmission) and reports
//! back through the `engine_*` methods; the agent enforces the ordering of
//! the protocol phases, keeps the session's knowledge, and dispatches each
//! accepted engine event to the owner's [`Handler`] exactly once. A ghost
//! log of the dispatched events lets the contracts state the delivery rules:
//! gathering completion is delivered at most once, and the last state change
//! delivered is always the current state.

use vstd::prelude::*;
use crate::addr::{IpAddress, SocketAddress};
use crate::config::{Configuration, ServerRef};
use crate::error::Error;
use crate::handler::Handler;
use crate::state::{engine_step, has_connectivity, State};

verus! {

/// A bundle summarizing one side's session: its credential text, and the
/// local candidates known when the bundle was made. In trickle mode the
/// candidate list is typically empty and candidates follow one by one.
#[derive(Clone, Debug)]
pub struct Description {
    /// The side's credential text; empty text is not a parsable description.
    pub credentials: String,
    /// The candidates known when the description was produced.
    pub candidates: Vec<String>,
}

impl Description {
    /// A description is parsable exactly when its credential text is
    /// non-empty.
    pub open spec fn valid(self) -> bool {
        self.credentials@.len() > 0
    }
}

/// The candidate pair the engine selected for data transfer, with the
/// resolved transport addresses of both ends.
#[derive(Clone, Debug)]
pub struct SelectedPair {
    pub local_candidate: String,
    pub remote_candidate: String,
    pub local_address: SocketAddress,
    pub remote_address: SocketAddress,
}

/// One event accepted by an agent and handed to its handler registry. The
/// ghost event log of an agent is a sequence of these, oldest first.
pub enum Event {
    StateChanged(State),
    CandidateFound(Seq<char>),
    GatheringDone,
    PacketReceived(Seq<u8>),
}

/// How many gathering-done events a log holds.
pub open spec fn count_gathering_done(events: Seq<Event>) -> int
    decreases events.len(),
{
    if events.len() == 0 {
        0
    } else {
        count_gathering_done(events.drop_last()) + if events.last() is GatheringDone {
            1int
        } else {
            0
        }
    }
}

/// The state carried by the most recent state-change event of a log, or
/// `New` if none was delivered yet.
pub open spec fn reported_state(events: Seq<Event>) -> State
    decreases events.len(),
{
    if events.len() == 0 {
        State::New
    } else {
        match events.last() {
            Event::StateChanged(s) => s,
            _ => reported_state(events.drop_last()),
        }
    }
}

/// The candidate texts carried by a log's candidate events, oldest first.
pub open spec fn delivered_candidates(events: Seq<Event>) -> Seq<Seq<char>>
    decreases events.len(),
{
    if events.len() == 0 {
        Seq::empty()
    } else {
        match events.last() {
            Event::CandidateFound(c) => delivered_candidates(events.drop_last()).push(c),
            _ => delivered_candidates(events.drop_last()),
        }
    }
}

/// Appending an event adds one gathering-done exactly when the event is one.
pub proof fn lemma_count_gathering_done_push(events: Seq<Event>, e: Event)
    ensures
        count_gathering_done(events.push(e)) == count_gathering_done(events) + if e
            is GatheringDone {
            1int
        } else {
            0
        },
{
    assert(events.push(e).drop_last() =~= events);
}

/// Appending an event extends the delivered candidates exactly when the
/// event is a discovered candidate.
pub proof fn lemma_delivered_candidates_push(events: Seq<Event>, e: Event)
    ensures
        delivered_candidates(events.push(e)) == (match e {
            Event::CandidateFound(c) => delivered_candidates(events).push(c),
            _ => delivered_candidates(events),
        }),
{
    assert(events.push(e).drop_last() =~= events);
}

/// Appending an event moves the reported state exactly when the event is a
/// state change.
pub proof fn lemma_reported_state_push(events: Seq<Event>, e: Event)
    ensures
        reported_state(events.push(e)) == (match e {
            Event::StateChanged(s) => s,
            _ => reported_state(events),
        }),
{
    assert(events.push(e).drop_last() =~= events);
}

/// One ICE session. Owns its configuration and handler registry; the
/// connectivity engine drives it through the `engine_*` methods.
pub struct Agent<S, C, G, R> where
    S: Fn(State),
    C: Fn(String),
    G: Fn(),
    R: Fn(&[u8]),
 {
    /// The options the agent was built with; immutable from here on.
    pub config: Configuration,
    /// The owner's event closures.
    pub handler: Handler<S, C, G, R>,
    /// The current session state.
    pub state: State,
    /// Whether candidate discovery was ever requested.
    pub gathering_started: bool,
    /// Whether the engine reported the end of local gathering.
    pub gathering_done: bool,
    /// Every local candidate the engine has discovered, oldest first.
    pub local_candidates: Vec<String>,
    /// The peer's description, once set; at most one per session.
    pub remote_description: Option<Description>,
    /// The peer's trickled candidates, oldest first.
    pub remote_candidates: Vec<String>,
    /// Whether the peer signalled the end of its gathering.
    pub remote_gathering_done: bool,
    /// The candidate pair selected for data transfer, while connectivity
    /// holds.
    pub selected: Option<SelectedPair>,
    /// The log of the events dispatched to the handler registry.
    pub events: Ghost<Seq<Event>>,
}

impl<S, C, G, R> Agent<S, C, G, R> where
    S: Fn(State),
    C: Fn(String),
    G: Fn(),
    R: Fn(&[u8]),
 {
    /// The session invariant. Builders establish it and every operation
    /// preserves it.
    pub open spec fn wf(self) -> bool {
        &&& self.handler.wf()
        &&& self.config.valid()
        &&& (self.state == State::New ==> !self.gathering_started)
        &&& (self.state == State::New ==> self.local_candidates@.len() == 0)
        &&& ((self.state == State::Gathering || self.state == State::Connecting
            || self.state == State::Connected || self.state == State::Completed)
            ==> self.gathering_started)
        &&& (self.gathering_done ==> self.gathering_started)
        &&& (self.selected is Some ==> has_connectivity(self.state))
        &&& (self.remote_description is None ==> self.remote_candidates@.len() == 0)
        &&& (self.remote_description is None ==> !self.remote_gathering_done)
        &&& (self.remote_description matches Some(d) ==> d.valid())
        &&& count_gathering_done(self.events@) == (if self.gathering_done {
            1int
        } else {
            0int
        })
        &&& reported_state(self.events@) == self.state
        &&& delivered_candidates(self.events@) == self.local_candidates@.map_values(
            |c: String| c@,
        )
    }

    /// Start configuring a new agent that will own the given handler.
    pub fn builder(handler: Handler<S, C, G, R>) -> (r: Builder<S, C, G, R>)
        ensures
            r.handler == handler,
            r.config.bind_address is None,
            r.config.port_range is None,
            r.config.server is None,
            !r.config.lite,
            r.config.local_credentials@.len() == 0,
    {
        Builder {
            handler,
            config: Configuration {
                bind_address: None,
                port_range: None,
                server: None,
                lite: false,
                local_credentials: String::new(),
            },
        }
    }

    /// A non-blocking snapshot of the session state. It may be stale by the
    /// time the caller acts on it.
    pub fn get_state(&self) -> (r: State)
        ensures
            r == self.state,
    {
        self.state
    }

    /// Request candidate discovery. The first effective call moves the
    /// session to `Gathering` and reports that change; any further call is a
    /// no-op. Fails with `InvalidState` exactly when the session has already
    /// failed.
    pub fn gather_candidates(&mut self) -> (r: Result<(), Error>)
        requires
            old(self).wf(),
        ensures
            final(self).wf(),
            old(self).state == State::Failed ==> r == Err::<(), Error>(Error::InvalidState)
                && *final(self) == *old(self),
            old(self).state != State::Failed && old(self).gathering_started ==> r == Ok::<
                (),
                Error,
            >(()) && *final(self) == *old(self),
            old(self).state != State::Failed && !old(self).gathering_started ==> {
                &&& r == Ok::<(), Error>(())
                &&& final(self).gathering_started
                &&& !final(self).gathering_done
                &&& final(self).state == State::Gathering
                &&& final(self).events@ == old(self).events@.push(
                    Event::StateChanged(State::Gathering),
                )
                &&& final(self).config == old(self).config
                &&& final(self).handler == old(self).handler
                &&& final(self).local_candidates == old(self).local_candidates
                &&& final(self).remote_description == old(self).remote_description
                &&& final(self).remote_candidates == old(self).remote_candidates
                &&& final(self).remote_gathering_done == old(self).remote_gathering_done
                &&& final(self).selected == old(self).selected
                &&& (old(self).handler.on_state_change matches Some(f) ==> call_ensures(
                    f,
                    (State::Gathering,),
                    (),
                ))
            },
    {
        if matches!(self.state, State::Failed) {
            return Err(Error::InvalidState);
        }
        if self.gathering_started {
            return Ok(());
        }
        self.gathering_started = true;
        self.state = State::Gathering;
        proof {
            lemma_count_gathering_done_push(
                self.events@,
                Event::StateChanged(State::Gathering),
            );
            lemma_reported_state_push(self.events@, Event::StateChanged(State::Gathering));
            lemma_delivered_candidates_push(
                self.events@,
                Event::StateChanged(State::Gathering),
            );
        }
        self.events = Ghost(self.events@.push(Event::StateChanged(State::Gathering)));
        self.handler.on_state_changed(State::Gathering);
        Ok(())
    }

    /// The local description: this side's credential text together with
    /// every candidate known so far. Always available; before gathering
    /// completes it may lack candidates.
    pub fn get_local_description(&self) -> (r: Result<Description, Error>)
        ensures
            r matches Ok(d) && d.credentials == self.config.local_credentials
                && d.candidates@ == self.local_candidates@,
    {
        Ok(
            Description {
                credentials: self.config.local_credentials.clone(),
                candidates: clone_texts(&self.local_candidates),
            },
        )
    }

    /// Set the peer's description. Fails with `InvalidDescription` exactly
    /// when the description is not parsable, and with `InvalidState` exactly
    /// when a remote description was already set: at most one per session.
    pub fn set_remote_description(&mut self, description: Description) -> (r: Result<(), Error>)
        requires
            old(self).wf(),
        ensures
            final(self).wf(),
            !description.valid() ==> r == Err::<(), Error>(Error::InvalidDescription)
                && *final(self) == *old(self),
            description.valid() && old(self).remote_description is Some ==> r == Err::<
                (),
                Error,
            >(Error::InvalidState) && *final(self) == *old(self),
            description.valid() && old(self).remote_description is None ==> {
                &&& r == Ok::<(), Error>(())
                &&& *final(self) == (Agent {
                    remote_description: Some(description),
                    ..*old(self)
                })
            },
    {
        if description.credentials.as_str().is_empty() {
            return Err(Error::InvalidDescription);
        }
        if self.remote_description.is_some() {
            return Err(Error::InvalidState);
        }
        self.remote_description = Some(description);
        Ok(())
    }

    /// Add one trickled candidate of the peer. Fails with `InvalidState`
    /// exactly when no remote description has been set yet, and with
    /// `InvalidCandidate` exactly when the candidate text is empty.
    pub fn add_remote_candidate(&mut self, candidate: String) -> (r: Result<(), Error>)
        requires
            old(self).wf(),
        ensures
            final(self).wf(),
            old(self).remote_description is None ==> r == Err::<(), Error>(Error::InvalidState)
                && *final(self) == *old(self),
            old(self).remote_description is Some && candidate@.len() == 0 ==> r == Err::<
                (),
                Error,
            >(Error::InvalidCandidate) && *final(self) == *old(self),
            old(self).remote_description is Some && candidate@.len() > 0 ==> {
                &&& r == Ok::<(), Error>(())
                &&& final(self).remote_candidates@ == old(self).remote_candidates@.push(candidate)
                &&& *final(self) == (Agent {
                    remote_candidates: final(self).remote_candidates,
                    ..*old(self)
                })
            },
    {
        if self.remote_description.is_none() {
            return Err(Error::InvalidState);
        }
        if candidate.as_str().is_empty() {
            return Err(Error::InvalidCandidate);
        }
        self.remote_candidates.push(candidate);
        Ok(())
    }

    /// Signal that the peer will trickle no further candidates, so the
    /// engine's checks can conclude without waiting. Fails with
    /// `InvalidState` exactly when no remote description has been set.
    pub fn set_remote_gathering_done(&mut self) -> (r: Result<(), Error>)
        requires
            old(self).wf(),
        ensures
            final(self).wf(),
            old(self).remote_description is None ==> r == Err::<(), Error>(Error::InvalidState)
                && *final(self) == *old(self),
            old(self).remote_description is Some ==> r == Ok::<(), Error>(()) && *final(self)
                == (Agent { remote_gathering_done: true, ..*old(self) }),
    {
        if self.remote_description.is_none() {
            return Err(Error::InvalidState);
        }
        self.remote_gathering_done = true;
        Ok(())
    }

    /// Hand a datagram to the engine for transmission over the selected
    /// pair. Fails with `NotConnected` exactly when no pair has been
    /// selected yet; delivery is best-effort, with no acknowledgment and no
    /// retry.
    #[allow(unused_variables)]
    pub fn send(&self, packet: &[u8]) -> (r: Result<(), Error>)
        ensures
            self.selected is Some ==> r == Ok::<(), Error>(()),
            self.selected is None ==> r == Err::<(), Error>(Error::NotConnected),
    {
        if self.selected.is_some() {
            Ok(())
        } else {
            Err(Error::NotConnected)
        }
    }

    /// The selected candidate pair, as `(local, remote)` candidate text;
    /// `None` until the engine has selected one.
    pub fn get_selected_candidates(&self) -> (r: Option<(String, String)>)
        ensures
            self.selected matches Some(p) ==> r matches Some(pair) && pair.0
                == p.local_candidate && pair.1 == p.remote_candidate,
            self.selected is None ==> r is None,
    {
        match &self.selected {
            Some(p) => Some((p.local_candidate.clone(), p.remote_candidate.clone())),
            None => None,
        }
    }

    /// The resolved addresses of the selected pair, as `(local, remote)`;
    /// `None` until the engine has selected one.
    pub fn get_selected_addresses(&self) -> (r: Option<(SocketAddress, SocketAddress)>)
        ensures
            self.selected matches Some(p) ==> r == Some((p.local_address, p.remote_address)),
            self.selected is None ==> r is None,
    {
        match &self.selected {
            Some(p) => Some((p.local_address, p.remote_address)),
            None => None,
        }
    }

    /// The engine reports a session state change. The agent records it,
    /// forgets the selected pair when connectivity is lost, and reports the
    /// change — exactly this one change — through the handler registry.
    pub fn engine_state_changed(&mut self, new_state: State) -> (fired: bool)
        requires
            old(self).wf(),
            engine_step(old(self).state, new_state),
        ensures
            final(self).wf(),
            final(self).state == new_state,
            final(self).selected == (if has_connectivity(new_state) {
                old(self).selected
            } else {
                None::<SelectedPair>
            }),
            final(self).events@ == old(self).events@.push(Event::StateChanged(new_state)),
            final(self).config == old(self).config,
            final(self).handler == old(self).handler,
            final(self).gathering_started == old(self).gathering_started,
            final(self).gathering_done == old(self).gathering_done,
            final(self).local_candidates == old(self).local_candidates,
            final(self).remote_description == old(self).remote_description,
            final(self).remote_candidates == old(self).remote_candidates,
            final(self).remote_gathering_done == old(self).remote_gathering_done,
            fired == (old(self).handler.on_state_change is Some),
            old(self).handler.on_state_change matches Some(f) ==> call_ensures(
                f,
                (new_state,),
                (),
            ),
    {
        self.state = new_state;
        if !matches!(new_state, State::Connected | State::Completed) {
            self.selected = None;
        }
        proof {
            lemma_count_gathering_done_push(self.events@, Event::StateChanged(new_state));
            lemma_reported_state_push(self.events@, Event::StateChanged(new_state));
            lemma_delivered_candidates_push(self.events@, Event::StateChanged(new_state));
        }
        self.events = Ghost(self.events@.push(Event::StateChanged(new_state)));
        self.handler.on_state_changed(new_state)
    }

    /// The engine reports one discovered local candidate. The agent records
    /// it and hands the text to the handler registry. Candidates arrive only
    /// while gathering is under way.
    pub fn engine_candidate_found(&mut self, candidate: String) -> (fired: bool)
        requires
            old(self).wf(),
            old(self).gathering_started,
            !old(self).gathering_done,
        ensures
            final(self).wf(),
            final(self).local_candidates@ == old(self).local_candidates@.push(candidate),
            final(self).events@ == old(self).events@.push(Event::CandidateFound(candidate@)),
            final(self).config == old(self).config,
            final(self).handler == old(self).handler,
            final(self).state == old(self).state,
            final(self).gathering_started == old(self).gathering_started,
            final(self).gathering_done == old(self).gathering_done,
            final(self).remote_description == old(self).remote_description,
            final(self).remote_candidates == old(self).remote_candidates,
            final(self).remote_gathering_done == old(self).remote_gathering_done,
            final(self).selected == old(self).selected,
            fired == (old(self).handler.on_candidate_found is Some),
            old(self).handler.on_candidate_found matches Some(f) ==> call_ensures(
                f,
                (candidate,),
                (),
            ),
    {
        let text = candidate.clone();
        self.local_candidates.push(text);
        proof {
            lemma_count_gathering_done_push(self.events@, Event::CandidateFound(candidate@));
            lemma_reported_state_push(self.events@, Event::CandidateFound(candidate@));
            lemma_delivered_candidates_push(self.events@, Event::CandidateFound(candidate@));
            assert(old(self).local_candidates@.push(candidate).map_values(|c: String| c@)
                =~= old(self).local_candidates@.map_values(|c: String| c@).push(candidate@));
        }
        self.events = Ghost(self.events@.push(Event::CandidateFound(candidate@)));
        self.handler.on_candidate(candidate)
    }

    /// The engine reports the end of local gathering. The first such report
    /// is recorded and dispatched; any further one is a no-op, so the
    /// gathering-done event can never be delivered twice. A report before
    /// gathering was requested is likewise ignored.
    pub fn engine_gathering_done(&mut self) -> (fired: bool)
        requires
            old(self).wf(),
        ensures
            final(self).wf(),
            !(old(self).gathering_started && !old(self).gathering_done) ==> *final(self) == *old(
                self,
            ) && !fired,
            old(self).gathering_started && !old(self).gathering_done ==> {
                &&& final(self).gathering_done
                &&& final(self).events@ == old(self).events@.push(Event::GatheringDone)
                &&& *final(self) == (Agent {
                    gathering_done: true,
                    events: final(self).events,
                    ..*old(self)
                })
                &&& fired == (old(self).handler.on_gathering_finished is Some)
                &&& (old(self).handler.on_gathering_finished matches Some(f) ==> call_ensures(
                    f,
                    (),
                    (),
                ))
            },
    {
        if !self.gathering_started || self.gathering_done {
            return false;
        }
        self.gathering_done = true;
        proof {
            lemma_count_gathering_done_push(self.events@, Event::GatheringDone);
            lemma_reported_state_push(self.events@, Event::GatheringDone);
            lemma_delivered_candidates_push(self.events@, Event::GatheringDone);
        }
        self.events = Ghost(self.events@.push(Event::GatheringDone));
        self.handler.on_gathering_done()
    }

    /// The engine reports the candidate pair it selected for data transfer,
    /// together with the resolved addresses. Selection is only reported
    /// while connectivity holds.
    pub fn engine_pair_selected(&mut self, pair: SelectedPair)
        requires
            old(self).wf(),
            has_connectivity(old(self).state),
        ensures
            final(self).wf(),
            *final(self) == (Agent { selected: Some(pair), ..*old(self) }),
    {
        self.selected = Some(pair);
    }

    /// The engine delivers an inbound datagram. The agent hands the very
    /// bytes to the handler registry, borrowed for the duration of the call.
    /// Data flows only while a pair is selected.
    pub fn engine_packet_received(&mut self, packet: &[u8]) -> (fired: bool)
        requires
            old(self).wf(),
            old(self).selected is Some,
        ensures
            final(self).wf(),
            final(self).events@ == old(self).events@.push(Event::PacketReceived(packet@)),
            *final(self) == (Agent { events: final(self).events, ..*old(self) }),
            fired == (old(self).handler.on_packet is Some),
            old(self).handler.on_packet matches Some(f) ==> call_ensures(f, (packet,), ()),
    {
        proof {
            lemma_count_gathering_done_push(self.events@, Event::PacketReceived(packet@));
            lemma_reported_state_push(self.events@, Event::PacketReceived(packet@));
            lemma_delivered_candidates_push(self.events@, Event::PacketReceived(packet@));
        }
        self.events = Ghost(self.events@.push(Event::PacketReceived(packet@)));
        self.handler.on_recv(packet)
    }
}

/// Clones a list of candidate texts, element for element.
fn clone_texts(v: &Vec<String>) -> (r: Vec<String>)
    ensures
        r@ == v@,
{
    let mut r: Vec<String> = Vec::new();
    let mut i: usize = 0;
    while i < v.len()
        invariant
            i <= v.len(),
            r@ == v@.subrange(0, i as int),
        decreases v.len() - i,
    {
        r.push(v[i].clone());
        proof {
            assert(r@ =~= v@.subrange(0, i as int + 1));
        }
        i += 1;
    }
    proof {
        assert(v@.subrange(0, v@.len() as int) =~= v@);
    }
    r
}

/// Collects and validates one agent's options, then builds the agent.
/// Setters only replace local fields and cannot fail; all validation
/// happens in [`Builder::build`].
pub struct Builder<S, C, G, R> where
    S: Fn(State),
    C: Fn(String),
    G: Fn(),
    R: Fn(&[u8]),
 {
    /// The handler the agent will own.
    pub handler: Handler<S, C, G, R>,
    /// The options collected so far.
    pub config: Configuration,
}

impl<S, C, G, R> Builder<S, C, G, R> where
    S: Fn(State),
    C: Fn(String),
    G: Fn(),
    R: Fn(&[u8]),
 {
    /// Restrict the agent's local sockets to one address.
    pub fn with_bind_address(self, address: IpAddress) -> (r: Builder<S, C, G, R>)
        ensures
            r.handler == self.handler,
            r.config == (Configuration { bind_address: Some(address), ..self.config }),
    {
        Builder {
            handler: self.handler,
            config: Configuration { bind_address: Some(address), ..self.config },
        }
    }

    /// Restrict ephemeral port allocation to `min..=max`.
    pub fn with_port_range(self, min: u16, max: u16) -> (r: Builder<S, C, G, R>)
        ensures
            r.handler == self.handler,
            r.config == (Configuration { port_range: Some((min, max)), ..self.config }),
    {
        Builder {
            handler: self.handler,
            config: Configuration { port_range: Some((min, max)), ..self.config },
        }
    }

    /// Use a STUN or TURN server for reflexive or relayed candidates.
    pub fn with_server(self, server: ServerRef) -> (r: Builder<S, C, G, R>)
        ensures
            r.handler == self.handler,
            r.config == (Configuration { server: Some(server), ..self.config }),
    {
        Builder {
            handler: self.handler,
            config: Configuration { server: Some(server), ..self.config },
        }
    }

    /// Take the ICE-lite role instead of full ICE.
    pub fn with_lite(self, lite: bool) -> (r: Builder<S, C, G, R>)
        ensures
            r.handler == self.handler,
            r.config == (Configuration { lite, ..self.config }),
    {
        Builder { handler: self.handler, config: Configuration { lite, ..self.config } }
    }

    /// Set the credential text placed in this agent's local description.
    pub fn with_local_credentials(self, credentials: String) -> (r: Builder<S, C, G, R>)
        ensures
            r.handler == self.handler,
            r.config == (Configuration { local_credentials: credentials, ..self.config }),
    {
        Builder {
            handler: self.handler,
            config: Configuration { local_credentials: credentials, ..self.config },
        }
    }

    /// Build the agent. Fails with `ConfigurationError` exactly when the
    /// collected options are invalid: a port range that is inverted or
    /// zero-width, or a server reference with an empty host. On success the
    /// builder is consumed, the handler passes to the agent, and the session
    /// is in state `New` with nothing gathered, no remote knowledge and no
    /// selected pair.
    pub fn build(self) -> (r: Result<Agent<S, C, G, R>, Error>)
        requires
            self.handler.wf(),
        ensures
            !self.config.valid() ==> r == Err::<Agent<S, C, G, R>, Error>(
                Error::ConfigurationError,
            ),
            self.config.valid() ==> (r matches Ok(a) && a == ((Agent {
                config: self.config,
                handler: self.handler,
                state: State::New,
                gathering_started: false,
                gathering_done: false,
                local_candidates: a.local_candidates,
                remote_description: None::<Description>,
                remote_candidates: a.remote_candidates,
                remote_gathering_done: false,
                selected: None::<SelectedPair>,
                events: Ghost(Seq::<Event>::empty()),
            })) && a.local_candidates@.len() == 0 && a.remote_candidates@.len() == 0 && a.wf()),
    {
        let valid_range = match self.config.port_range {
            Some((min, max)) => min < max,
            None => true,
        };
        let valid_server = match &self.config.server {
            Some(s) => !s.host.as_str().is_empty(),
            None => true,
        };
        if !valid_range || !valid_server {
            return Err(Error::ConfigurationError);
        }
        proof {
            assert(delivered_candidates(Seq::<Event>::empty()) =~= Seq::<Seq<char>>::empty());
            assert(Seq::<String>::empty().map_values(|c: String| c@) =~= Seq::<
                Seq<char>,
            >::empty());
        }
        Ok(
            Agent {
                config: self.config,
                handler: self.handler,
                state: State::New,
                gathering_started: false,
                gathering_done: false,
                local_candidates: Vec::new(),
                remote_description: None,
                remote_candidates: Vec::new(),
                remote_gathering_done: false,
                selected: None,
                events: Ghost(Seq::empty()),
            },
        )
    }
}

/// The gathering-done event is delivered to the handler registry at most
/// once over an agent's lifetime, however the engine reports.
pub proof fn lemma_gathering_done_delivered_at_most_once<S, C, G, R>(
    agent: &Agent<S, C, G, R>,
) where
    S: Fn(State),
    C: Fn(String),
    G: Fn(),
    R: Fn(&[u8]),

    requires
        agent.wf(),
    ensures
        count_gathering_done(agent.events@) <= 1,
{
}

/// The last state change delivered to the handler registry is the current
/// session state: no transition is skipped or reported twice in a row.
pub proof fn lemma_reported_state_is_current<S, C, G, R>(agent: &Agent<S, C, G, R>) where
    S: Fn(State),
    C: Fn(String),
    G: Fn(),
    R: Fn(&[u8]),

    requires
        agent.wf(),
    ensures
        reported_state(agent.events@) == agent.state,
{
}

/// Every candidate the engine discovered was delivered to the handler
/// registry exactly once, in discovery order: the delivered candidates are
/// the candidate list of the local description, text for text.
pub proof fn lemma_candidates_delivered_in_order<S, C, G, R>(agent: &Agent<S, C, G, R>) where
    S: Fn(State),
    C: Fn(String),
    G: Fn(),
    R: Fn(&[u8]),

    requires
        agent.wf(),
    ensures
        delivered_candidates(agent.events@) == agent.local_candidates@.map_values(
            |c: String| c@,
        ),
{
}

/// A selected candidate pair exists only while connectivity holds: before
/// the session is connected, and again after it fails or disconnects, there
/// is none — which is exactly when `send` refuses with `NotConnected`.
pub proof fn lemma_selected_pair_needs_connectivity<S, C, G, R>(agent: &Agent<S, C, G, R>) where
    S: Fn(State),
    C: Fn(String),
    G: Fn(),
    R: Fn(&[u8]),

    requires
        agent.wf(),
    ensures
        agent.selected is Some ==> has_connectivity(agent.state),
{
}

} // verus!

