//! Connection points. A pad is a named, directional endpoint owned by the
//! element; its peer models whatever the host runtime attached on the other
//! side. The peer records every buffer and event pushed to it, in arrival
//! order, and holds the answers it gives to pushes and queries, so the
//! element's forwarding obligations can be stated over those records.

use vstd::prelude::*;
use crate::signal::{Buffer, BufferView, Event, FlowError, FlowSuccess, Query, QueryKind};

verus! {

/// Direction of a connection point: `Sink` receives, `Src` emits.
#[derive(Clone, Copy, Debug, PartialEq, Eq, Structural)]
pub enum Direction {
    Sink,
    Src,
}

/// When a pad of a template exists on the element. The baseline element's two
/// pads always exist.
#[derive(Clone, Copy, Debug, PartialEq, Eq, Structural)]
pub enum Presence {
    Always,
}

/// Capability set of a connection point: `Any` matches every format, `Format`
/// accepts exactly one format code. The baseline element declares `Any` on
/// both pads.
#[derive(Clone, Copy, Debug, PartialEq, Eq, Structural)]
pub enum Caps {
    Any,
    Format(u32),
}

impl Caps {
    /// Whether a stream of the given format code passes this capability set.
    pub open spec fn accepts(self, format: u32) -> bool {
        match self {
            Caps::Any => true,
            Caps::Format(f) => f == format,
        }
    }

    /// Whether a stream of the given format code passes this capability set,
    /// as a runtime check.
    pub fn accepts_format(&self, format: u32) -> (r: bool)
        ensures
            r == self.accepts(format),
    {
        match self {
            Caps::Any => true,
            Caps::Format(f) => *f == format,
        }
    }
}

/// A template a pad is instantiated from: name, direction, presence and
/// capability set, declared once per element type.
#[derive(Clone, Copy, Debug, PartialEq, Eq)]
pub struct PadTemplate {
    pub name: &'static str,
    pub direction: Direction,
    pub presence: Presence,
    pub caps: Caps,
}

/// Which handlers are wired on a pad. Each is registered at most once and
/// never reassigned afterwards.
#[derive(Clone, Copy, Debug, PartialEq, Eq, Structural)]
pub struct PadHandlers {
    pub chain: bool,
    pub event: bool,
    pub query: bool,
}

impl PadHandlers {
    /// No handler wired yet.
    pub open spec fn none() -> PadHandlers {
        PadHandlers { chain: false, event: false, query: false }
    }
}

/// The model of the neighbouring element linked to a pad. It records every
/// buffer and event pushed to it in arrival order, and is configured with the
/// verdicts it returns: a flow verdict for buffer pushes, a flag for event
/// pushes, and the position/duration values it can answer queries with.
#[derive(Debug)]
pub struct Peer {
    pub received_buffers: Vec<Buffer>,
    pub received_events: Vec<Event>,
    pub flow_verdict: Result<FlowSuccess, FlowError>,
    pub event_verdict: bool,
    pub position: Option<u64>,
    pub duration: Option<u64>,
}

impl Peer {
    /// The buffers this peer has received so far, oldest first.
    pub open spec fn buffers(self) -> Seq<BufferView> {
        self.received_buffers@.map_values(|b: Buffer| b@)
    }

    /// The events this peer has received so far, oldest first.
    pub open spec fn events(self) -> Seq<Event> {
        self.received_events@
    }

    /// The value this peer would answer a query of the given kind with, if
    /// any.
    pub open spec fn answer_for(self, kind: QueryKind) -> Option<u64> {
        match kind {
            QueryKind::Position => self.position,
            QueryKind::Duration => self.duration,
        }
    }

    /// `other` is this peer with the same configured verdicts and answers
    /// (only its records may differ).
    pub open spec fn same_config(self, other: Peer) -> bool {
        &&& other.flow_verdict == self.flow_verdict
        &&& other.event_verdict == self.event_verdict
        &&& other.position == self.position
        &&& other.duration == self.duration
    }

    /// A peer that has received nothing yet and will answer with the given
    /// verdicts.
    pub fn new(
        flow_verdict: Result<FlowSuccess, FlowError>,
        event_verdict: bool,
        position: Option<u64>,
        duration: Option<u64>,
    ) -> (p: Peer)
        ensures
            p.buffers() == Seq::<BufferView>::empty(),
            p.events() == Seq::<Event>::empty(),
            p.flow_verdict == flow_verdict,
            p.event_verdict == event_verdict,
            p.position == position,
            p.duration == duration,
    {
        let p = Peer {
            received_buffers: Vec::new(),
            received_events: Vec::new(),
            flow_verdict,
            event_verdict,
            position,
            duration,
        };
        proof {
            assert(p.buffers() =~= Seq::<BufferView>::empty());
            assert(p.events() =~= Seq::<Event>::empty());
        }
        p
    }
}

/// A connection point: identity (name, direction, capability set), the wired
/// handlers, whether it has been attached to its element, and the peer the
/// host runtime linked to it, if any.
#[derive(Debug)]
pub struct Pad {
    pub name: &'static str,
    pub direction: Direction,
    pub caps: Caps,
    pub handlers: PadHandlers,
    pub attached: bool,
    pub peer: Option<Peer>,
}

impl Pad {
    /// Whether a peer is linked to this pad.
    pub open spec fn is_linked(self) -> bool {
        self.peer is Some
    }

    /// The buffers the linked peer has received; empty while unlinked.
    pub open spec fn peer_buffers(self) -> Seq<BufferView> {
        match self.peer {
            Some(p) => p.buffers(),
            None => Seq::empty(),
        }
    }

    /// The events the linked peer has received; empty while unlinked.
    pub open spec fn peer_events(self) -> Seq<Event> {
        match self.peer {
            Some(p) => p.events(),
            None => Seq::empty(),
        }
    }

    /// The value the linked peer would answer a query of the given kind with;
    /// `None` while unlinked or when the peer has no answer.
    pub open spec fn peer_answer(self, kind: QueryKind) -> Option<u64> {
        match self.peer {
            Some(p) => p.answer_for(kind),
            None => None,
        }
    }

    /// `other` is this pad with everything except the peer unchanged.
    pub open spec fn same_but_peer(self, other: Pad) -> bool {
        &&& other.name == self.name
        &&& other.direction == self.direction
        &&& other.caps == self.caps
        &&& other.handlers == self.handlers
        &&& other.attached == self.attached
    }

    /// The peer's presence and configuration survive in `other` (only its
    /// records may grow).
    pub open spec fn peer_config_kept(self, other: Pad) -> bool {
        &&& (other.peer is Some <==> self.peer is Some)
        &&& (self.peer matches Some(p) ==> (other.peer matches Some(q) && p.same_config(q)))
    }

    /// Instantiate a pad from a template: no handlers wired, not attached,
    /// not linked.
    pub fn from_template(templ: &PadTemplate, name: &'static str) -> (p: Pad)
        ensures
            p.name == name,
            p.direction == templ.direction,
            p.caps == templ.caps,
            p.handlers == PadHandlers::none(),
            !p.attached,
            !p.is_linked(),
    {
        Pad {
            name,
            direction: templ.direction,
            caps: templ.caps,
            handlers: PadHandlers { chain: false, event: false, query: false },
            attached: false,
            peer: None,
        }
    }

    /// Wire the buffer-chain handler. It can be wired only once, only on a
    /// sink pad, and only before the pad is attached to its element.
    pub fn set_chain_function(&mut self)
        requires
            !old(self).handlers.chain,
            old(self).direction == Direction::Sink,
            !old(self).attached,
        ensures
            final(self).handlers == (PadHandlers { chain: true, ..old(self).handlers }),
            final(self).name == old(self).name,
            final(self).direction == old(self).direction,
            final(self).caps == old(self).caps,
            final(self).attached == old(self).attached,
            final(self).peer == old(self).peer,
    {
        self.handlers.chain = true;
    }

    /// Wire the event handler; once, before attachment.
    pub fn set_event_function(&mut self)
        requires
            !old(self).handlers.event,
            !old(self).attached,
        ensures
            final(self).handlers == (PadHandlers { event: true, ..old(self).handlers }),
            final(self).name == old(self).name,
            final(self).direction == old(self).direction,
            final(self).caps == old(self).caps,
            final(self).attached == old(self).attached,
            final(self).peer == old(self).peer,
    {
        self.handlers.event = true;
    }

    /// Wire the query handler; once, before attachment.
    pub fn set_query_function(&mut self)
        requires
            !old(self).handlers.query,
            !old(self).attached,
        ensures
            final(self).handlers == (PadHandlers { query: true, ..old(self).handlers }),
            final(self).name == old(self).name,
            final(self).direction == old(self).direction,
            final(self).caps == old(self).caps,
            final(self).attached == old(self).attached,
            final(self).peer == old(self).peer,
    {
        self.handlers.query = true;
    }

    /// Attach the pad to its element. Handlers must be wired before this, and
    /// a pad is attached exactly once; only then can it receive signals.
    pub fn attach(&mut self)
        requires
            !old(self).attached,
        ensures
            final(self).name == old(self).name,
            final(self).direction == old(self).direction,
            final(self).caps == old(self).caps,
            final(self).handlers == old(self).handlers,
            final(self).attached,
            final(self).peer == old(self).peer,
    {
        self.attached = true;
    }

    /// Link a peer to this pad. The host runtime links each pad at most once
    /// at a time.
    pub fn link_peer(&mut self, peer: Peer)
        requires
            !old(self).is_linked(),
        ensures
            old(self).same_but_peer(*final(self)),
            final(self).peer == Some(peer),
    {
        self.peer = Some(peer);
    }

    /// Unlink the peer, returning it (with its records) to the host runtime.
    pub fn unlink_peer(&mut self) -> (p: Option<Peer>)
        ensures
            old(self).same_but_peer(*final(self)),
            !final(self).is_linked(),
            p == old(self).peer,
    {
        self.peer.take()
    }

    /// Push one buffer to the peer. A linked peer records the buffer after
    /// everything it received before and returns its flow verdict; an
    /// unlinked pad returns `NotLinked` and the buffer goes nowhere.
    pub fn push(&mut self, buffer: Buffer) -> (r: Result<FlowSuccess, FlowError>)
        ensures
            old(self).same_but_peer(*final(self)),
            old(self).peer_config_kept(*final(self)),
            final(self).peer_events() == old(self).peer_events(),
            old(self).is_linked() ==> {
                &&& final(self).peer_buffers() == old(self).peer_buffers().push(buffer@)
                &&& r == old(self).peer->Some_0.flow_verdict
            },
            !old(self).is_linked() ==> {
                &&& final(self).peer_buffers() == old(self).peer_buffers()
                &&& r == Err::<FlowSuccess, FlowError>(FlowError::NotLinked)
            },
    {
        match &mut self.peer {
            Some(p) => {
                p.received_buffers.push(buffer);
                let verdict = p.flow_verdict;
                proof {
                    assert(self.peer_buffers() =~= old(self).peer_buffers().push(buffer@));
                }
                verdict
            },
            None => Err(FlowError::NotLinked),
        }
    }

    /// Push one event to the peer. A linked peer records the event after
    /// everything it received before and returns its event verdict; an
    /// unlinked pad returns `false` and the event goes nowhere.
    pub fn push_event(&mut self, event: Event) -> (r: bool)
        ensures
            old(self).same_but_peer(*final(self)),
            old(self).peer_config_kept(*final(self)),
            final(self).peer_buffers() == old(self).peer_buffers(),
            old(self).is_linked() ==> {
                &&& final(self).peer_events() == old(self).peer_events().push(event)
                &&& r == old(self).peer->Some_0.event_verdict
            },
            !old(self).is_linked() ==> {
                &&& final(self).peer_events() == old(self).peer_events()
                &&& !r
            },
    {
        match &mut self.peer {
            Some(p) => {
                p.received_events.push(event);
                p.event_verdict
            },
            None => false,
        }
    }

    /// Forward a query to the peer of this pad. A linked peer that knows the
    /// requested value writes it into the query and reports success; in every
    /// other case the query is returned exactly as it arrived and the result
    /// is `false`. The pad itself is not changed.
    pub fn peer_query(&self, query: &mut Query) -> (r: bool)
        ensures
            (r <==> self.peer_answer(old(query).kind) is Some),
            r ==> *final(query) == (Query {
                kind: old(query).kind,
                response: self.peer_answer(old(query).kind),
            }),
            !r ==> *final(query) == *old(query),
    {
        match &self.peer {
            Some(p) => {
                let answer = match query.kind {
                    QueryKind::Position => p.position,
                    QueryKind::Duration => p.duration,
                };
                match answer {
                    Some(v) => {
                        query.response = Some(v);
                        true
                    },
                    None => false,
                }
            },
            None => false,
        }
    }
}

} // verus!
