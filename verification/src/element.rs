//! The element core: class data declared once per element type, the element
//! instance with its two connection points and optional analysis stage, the
//! five handlers, the dispatcher entry points the host runtime invokes, and
//! the laws that hold of them.

use vstd::prelude::*;
use vstd::pervasive::unreached;
use crate::detector::{Detector, StageError, StageMode};
use crate::dispatch::{dispatch_bool, dispatch_flow, HandlerOutcome};
use crate::lifecycle::{ElementState, StateChange, StateChangeError, StateChangeSuccess};
use crate::pad::{Caps, Direction, Pad, PadHandlers, PadTemplate, Presence};
use crate::signal::{Buffer, BufferView, Event, FlowError, FlowSuccess, Query};

verus! {

/// Element metadata reported at type registration: display name,
/// classification category, description and author.
#[derive(Clone, Copy, Debug)]
pub struct Metadata {
    pub long_name: &'static str,
    pub classification: &'static str,
    pub description: &'static str,
    pub author: &'static str,
}

/// Per-type class data: metadata, the pad templates instances are built
/// from, and whether instances carry an analysis stage (and in which mode).
#[derive(Debug)]
pub struct ElementClass {
    pub metadata: Option<Metadata>,
    pub templates: Vec<PadTemplate>,
    pub stage_mode: Option<StageMode>,
}

impl ElementClass {
    /// Whether the class declares a template for the given direction.
    pub open spec fn has_template(self, dir: Direction) -> bool {
        exists|i: int| 0 <= i < self.templates@.len() && self.templates@[i].direction == dir
    }

    /// A class with no metadata and no templates yet.
    pub fn new(stage_mode: Option<StageMode>) -> (c: ElementClass)
        ensures
            c.metadata is None,
            c.templates@ == Seq::<PadTemplate>::empty(),
            c.stage_mode == stage_mode,
    {
        ElementClass { metadata: None, templates: Vec::new(), stage_mode }
    }

    /// Set the element-type metadata. It is set exactly once, at type
    /// registration.
    pub fn set_metadata(&mut self, metadata: Metadata)
        requires
            old(self).metadata is None,
        ensures
            final(self).metadata == Some(metadata),
            final(self).templates == old(self).templates,
            final(self).stage_mode == old(self).stage_mode,
    {
        self.metadata = Some(metadata);
    }

    /// Declare one more pad template on the class.
    pub fn add_pad_template(&mut self, templ: PadTemplate)
        ensures
            final(self).templates@ == old(self).templates@.push(templ),
            final(self).metadata == old(self).metadata,
            final(self).stage_mode == old(self).stage_mode,
    {
        self.templates.push(templ);
    }

    /// Look up a template by direction.
    pub fn get_pad_template(&self, dir: Direction) -> (r: Option<PadTemplate>)
        ensures
            (r matches Some(t) ==> t.direction == dir && self.templates@.contains(t)),
            r is None ==> !self.has_template(dir),
    {
        let mut i: usize = 0;
        while i < self.templates.len()
            invariant
                0 <= i <= self.templates@.len(),
                forall|j: int| 0 <= j < i ==> self.templates@[j].direction != dir,
            decreases self.templates@.len() - i,
        {
            if self.templates[i].direction == dir {
                let t = self.templates[i];
                proof {
                    assert(self.templates@.contains(self.templates@[i as int]));
                }
                return Some(t);
            }
            i += 1;
        }
        None
    }

    /// Class initialisation, run once per element type: set the metadata and
    /// declare the two always-present pad templates, both accepting any
    /// format — the source template first, then the sink template.
    pub fn class_init(metadata: Metadata, stage_mode: Option<StageMode>) -> (c: ElementClass)
        ensures
            c.metadata == Some(metadata),
            c.stage_mode == stage_mode,
            c.templates@.len() == 2,
            c.templates@[0].name@ == "src"@,
            c.templates@[0].direction == Direction::Src,
            c.templates@[0].presence == Presence::Always,
            c.templates@[0].caps == Caps::Any,
            c.templates@[1].name@ == "sink"@,
            c.templates@[1].direction == Direction::Sink,
            c.templates@[1].presence == Presence::Always,
            c.templates@[1].caps == Caps::Any,
            c.has_template(Direction::Src),
            c.has_template(Direction::Sink),
    {
        let mut c = ElementClass::new(stage_mode);
        c.set_metadata(metadata);
        let caps = Caps::Any;
        c.add_pad_template(
            PadTemplate {
                name: "src",
                direction: Direction::Src,
                presence: Presence::Always,
                caps,
            },
        );
        c.add_pad_template(
            PadTemplate {
                name: "sink",
                direction: Direction::Sink,
                presence: Presence::Always,
                caps,
            },
        );
        proof {
            assert(c.templates@[0].direction == Direction::Src);
            assert(c.templates@[1].direction == Direction::Sink);
        }
        c
    }
}

/// The element: lifecycle state, the optional analysis stage, and the two
/// connection points.
#[derive(Debug)]
pub struct Element {
    pub state: ElementState,
    pub detector: Option<Detector>,
    pub sinkpad: Pad,
    pub srcpad: Pad,
}

impl Element {
    /// The five handlers are wired as the callback contract demands: on the
    /// sink pad buffer-chain, event and query; on the source pad event and
    /// query, and no chain.
    pub open spec fn wired(self) -> bool {
        &&& self.sinkpad.direction == Direction::Sink
        &&& self.srcpad.direction == Direction::Src
        &&& self.sinkpad.handlers == (PadHandlers { chain: true, event: true, query: true })
        &&& self.srcpad.handlers == (PadHandlers { chain: false, event: true, query: true })
    }

    /// The stage's expensive resources exist exactly while the element is at
    /// or above Ready.
    pub open spec fn resources_in_step(self) -> bool {
        self.detector matches Some(d) ==> (d.resources_loaded <==> self.state
            != ElementState::Null)
    }

    /// A fully constructed element: handlers wired, both pads attached, and
    /// the stage's resources tracking the lifecycle state.
    pub open spec fn wf(self) -> bool {
        &&& self.wired()
        &&& self.sinkpad.attached
        &&& self.srcpad.attached
        &&& self.resources_in_step()
    }

    /// What the analysis stage yields for an inbound buffer: the buffer
    /// itself when no stage is configured, the stage's output when its
    /// resources exist, and a stage error otherwise.
    pub open spec fn stage_output(self, b: BufferView) -> Result<BufferView, StageError> {
        match self.detector {
            Some(d) => if d.resources_loaded {
                d.process_spec(b)
            } else {
                Err(StageError::ProcessFailed)
            },
            None => Ok(b),
        }
    }

    /// `post` is `pre` with only the source pad's peer records possibly
    /// extended: state, stage, sink pad, the source pad's identity and its
    /// peer's presence and configuration are untouched.
    pub open spec fn src_push_frame(pre: Element, post: Element) -> bool {
        &&& post.state == pre.state
        &&& post.detector == pre.detector
        &&& post.sinkpad == pre.sinkpad
        &&& pre.srcpad.same_but_peer(post.srcpad)
        &&& pre.srcpad.peer_config_kept(post.srcpad)
    }

    /// `post` is `pre` with only the sink pad's peer records possibly
    /// extended.
    pub open spec fn sink_push_frame(pre: Element, post: Element) -> bool {
        &&& post.state == pre.state
        &&& post.detector == pre.detector
        &&& post.srcpad == pre.srcpad
        &&& pre.sinkpad.same_but_peer(post.sinkpad)
        &&& pre.sinkpad.peer_config_kept(post.sinkpad)
    }

    /// What one buffer delivery on the sink does: if the stage fails, a flow
    /// error comes back and nothing is pushed; otherwise the stage's output
    /// is pushed on the source pad exactly once and the push's own result is
    /// returned verbatim.
    pub open spec fn sink_chain_rel(
        pre: Element,
        b: BufferView,
        post: Element,
        r: Result<FlowSuccess, FlowError>,
    ) -> bool {
        &&& Element::src_push_frame(pre, post)
        &&& post.srcpad.peer_events() == pre.srcpad.peer_events()
        &&& (pre.stage_output(b) is Err ==> {
            &&& r == Err::<FlowSuccess, FlowError>(FlowError::Error)
            &&& post.srcpad.peer_buffers() == pre.srcpad.peer_buffers()
        })
        &&& (pre.stage_output(b) matches Ok(pb) ==> {
            &&& (pre.srcpad.peer matches Some(peer) ==> {
                &&& post.srcpad.peer_buffers() == pre.srcpad.peer_buffers().push(pb)
                &&& r == peer.flow_verdict
            })
            &&& (pre.srcpad.peer is None ==> {
                &&& post.srcpad.peer_buffers() == pre.srcpad.peer_buffers()
                &&& r == Err::<FlowSuccess, FlowError>(FlowError::NotLinked)
            })
        })
    }

    /// What one event delivery on the sink does: the event is pushed on the
    /// source pad argument-for-argument, after everything pushed before, and
    /// the push's flag is returned verbatim.
    pub open spec fn sink_event_rel(pre: Element, e: Event, post: Element, r: bool) -> bool {
        &&& Element::src_push_frame(pre, post)
        &&& post.srcpad.peer_buffers() == pre.srcpad.peer_buffers()
        &&& (pre.srcpad.peer matches Some(peer) ==> {
            &&& post.srcpad.peer_events() == pre.srcpad.peer_events().push(e)
            &&& r == peer.event_verdict
        })
        &&& (pre.srcpad.peer is None ==> {
            &&& post.srcpad.peer_events() == pre.srcpad.peer_events()
            &&& !r
        })
    }

    /// What one event delivery on the source does: symmetric to the sink
    /// side, with the sink pad as the opposite connection point.
    pub open spec fn src_event_rel(pre: Element, e: Event, post: Element, r: bool) -> bool {
        &&& Element::sink_push_frame(pre, post)
        &&& post.sinkpad.peer_buffers() == pre.sinkpad.peer_buffers()
        &&& (pre.sinkpad.peer matches Some(peer) ==> {
            &&& post.sinkpad.peer_events() == pre.sinkpad.peer_events().push(e)
            &&& r == peer.event_verdict
        })
        &&& (pre.sinkpad.peer is None ==> {
            &&& post.sinkpad.peer_events() == pre.sinkpad.peer_events()
            &&& !r
        })
    }

    /// What one query delivery on the sink does: the result equals what
    /// forwarding to the source pad's peer yields, the answer is written into
    /// the query on success, and the query is returned exactly as it arrived
    /// on failure.
    pub open spec fn sink_query_rel(self, q0: Query, q1: Query, r: bool) -> bool {
        &&& (r <==> self.srcpad.peer_answer(q0.kind) is Some)
        &&& (r ==> q1 == (Query { kind: q0.kind, response: self.srcpad.peer_answer(q0.kind) }))
        &&& (!r ==> q1 == q0)
    }

    /// What one query delivery on the source does: symmetric to the sink
    /// side.
    pub open spec fn src_query_rel(self, q0: Query, q1: Query, r: bool) -> bool {
        &&& (r <==> self.sinkpad.peer_answer(q0.kind) is Some)
        &&& (r ==> q1 == (Query { kind: q0.kind, response: self.sinkpad.peer_answer(q0.kind) }))
        &&& (!r ==> q1 == q0)
    }

    /// What one lifecycle transition request does: it succeeds exactly when
    /// it leaves the element's current state; a failure changes nothing; a
    /// success enters the transition's target state, loading the stage's
    /// resources when crossing Null to Ready and releasing them when reaching
    /// Null, so the resource invariant is preserved.
    pub open spec fn change_state_rel(
        pre: Element,
        t: StateChange,
        post: Element,
        r: Result<StateChangeSuccess, StateChangeError>,
    ) -> bool {
        &&& post.sinkpad == pre.sinkpad
        &&& post.srcpad == pre.srcpad
        &&& (r is Ok <==> t.from_state() == pre.state)
        &&& (r is Err ==> post == pre)
        &&& (r is Ok ==> post.state == t.to_state())
        &&& (post.detector is Some <==> pre.detector is Some)
        &&& (pre.detector matches Some(d) ==> (post.detector matches Some(d2) && d2.mode
            == d.mode))
        &&& (pre.resources_in_step() ==> post.resources_in_step())
    }

    /// The chain entry point seen from outside the dispatcher: a faulted
    /// handler leaves the element untouched and yields the flow-error
    /// fallback; a completed handler behaves as `sink_chain_rel` says.
    pub open spec fn chain_entry_rel(
        pre: Element,
        b: BufferView,
        faulted: bool,
        post: Element,
        r: Result<FlowSuccess, FlowError>,
    ) -> bool {
        if faulted {
            post == pre && r == Err::<FlowSuccess, FlowError>(FlowError::Error)
        } else {
            Element::sink_chain_rel(pre, b, post, r)
        }
    }

    /// Wire the five handlers, each exactly once, before the pads are
    /// attached: buffer-chain, event and query on the sink pad; event and
    /// query on the source pad. Every one of them is invoked only through
    /// the panic-safe dispatcher entry points below.
    pub fn set_pad_functions(sinkpad: &mut Pad, srcpad: &mut Pad)
        requires
            old(sinkpad).direction == Direction::Sink,
            old(srcpad).direction == Direction::Src,
            old(sinkpad).handlers == (PadHandlers { chain: false, event: false, query: false }),
            old(srcpad).handlers == (PadHandlers { chain: false, event: false, query: false }),
            !old(sinkpad).attached,
            !old(srcpad).attached,
        ensures
            final(sinkpad).handlers == (PadHandlers { chain: true, event: true, query: true }),
            final(srcpad).handlers == (PadHandlers { chain: false, event: true, query: true }),
            final(sinkpad).name == old(sinkpad).name,
            final(sinkpad).direction == old(sinkpad).direction,
            final(sinkpad).caps == old(sinkpad).caps,
            final(sinkpad).attached == old(sinkpad).attached,
            final(sinkpad).peer == old(sinkpad).peer,
            final(srcpad).name == old(srcpad).name,
            final(srcpad).direction == old(srcpad).direction,
            final(srcpad).caps == old(srcpad).caps,
            final(srcpad).attached == old(srcpad).attached,
            final(srcpad).peer == old(srcpad).peer,
    {
        sinkpad.set_chain_function();
        sinkpad.set_event_function();
        sinkpad.set_query_function();

        srcpad.set_event_function();
        srcpad.set_query_function();
    }

    /// Create an element instance from its class: one pad per template, the
    /// handlers wired, the stage's lightweight handle created, state Null.
    /// The pads are not yet attached and nothing is linked.
    pub fn new_with_class(class: &ElementClass) -> (e: Element)
        requires
            class.has_template(Direction::Sink),
            class.has_template(Direction::Src),
        ensures
            e.state == ElementState::Null,
            e.wired(),
            !e.sinkpad.attached,
            !e.srcpad.attached,
            !e.sinkpad.is_linked(),
            !e.srcpad.is_linked(),
            e.sinkpad.name@ == "sink"@,
            e.srcpad.name@ == "src"@,
            (e.detector is Some <==> class.stage_mode is Some),
            (class.stage_mode matches Some(m) ==> (e.detector matches Some(d) && d.mode == m
                && !d.resources_loaded)),
            e.resources_in_step(),
            exists|i: int|
                0 <= i < class.templates@.len() && class.templates@[i].direction
                    == Direction::Sink && class.templates@[i].caps == e.sinkpad.caps,
            exists|i: int|
                0 <= i < class.templates@.len() && class.templates@[i].direction
                    == Direction::Src && class.templates@[i].caps == e.srcpad.caps,
    {
        let sink_templ = match class.get_pad_template(Direction::Sink) {
            Some(t) => t,
            None => unreached(),
        };
        let src_templ = match class.get_pad_template(Direction::Src) {
            Some(t) => t,
            None => unreached(),
        };
        let mut sinkpad = Pad::from_template(&sink_templ, "sink");
        let mut srcpad = Pad::from_template(&src_templ, "src");

        Element::set_pad_functions(&mut sinkpad, &mut srcpad);

        let detector = match class.stage_mode {
            Some(m) => Some(Detector::init(m)),
            None => None,
        };
        Element { state: ElementState::Null, detector, sinkpad, srcpad }
    }

    /// Right after construction: attach both pads to the element, each
    /// exactly once. Only an element with attached pads receives signals.
    pub fn constructed(&mut self)
        requires
            old(self).wired(),
            !old(self).sinkpad.attached,
            !old(self).srcpad.attached,
            old(self).resources_in_step(),
        ensures
            final(self).wf(),
            final(self).state == old(self).state,
            final(self).detector == old(self).detector,
            final(self).sinkpad.name == old(self).sinkpad.name,
            final(self).sinkpad.caps == old(self).sinkpad.caps,
            final(self).sinkpad.peer == old(self).sinkpad.peer,
            final(self).srcpad.name == old(self).srcpad.name,
            final(self).srcpad.caps == old(self).srcpad.caps,
            final(self).srcpad.peer == old(self).srcpad.peer,
    {
        self.sinkpad.attach();
        self.srcpad.attach();
    }

    /// Handle one buffer delivered on the sink pad: run it through the
    /// analysis stage if one is configured, then push the result on the
    /// source pad and return the push's result verbatim. A stage failure
    /// becomes a flow error and nothing is pushed.
    pub fn sink_chain(&mut self, buffer: Buffer) -> (r: Result<FlowSuccess, FlowError>)
        ensures
            Element::sink_chain_rel(*old(self), buffer@, *final(self), r),
    {
        let processed = match &self.detector {
            Some(d) => {
                if !d.resources_loaded {
                    return Err(FlowError::Error);
                }
                match d.process(buffer) {
                    Ok(b) => b,
                    Err(_) => {
                        return Err(FlowError::Error);
                    },
                }
            },
            None => buffer,
        };
        self.srcpad.push(processed)
    }

    /// Handle one event delivered on the sink pad: forward it to the source
    /// pad unchanged and return the push's flag verbatim.
    pub fn sink_event(&mut self, event: Event) -> (r: bool)
        ensures
            Element::sink_event_rel(*old(self), event, *final(self), r),
    {
        self.srcpad.push_event(event)
    }

    /// Handle one query delivered on the sink pad: forward it to the source
    /// pad's peer; the answer is written in place, and the query is unchanged
    /// if forwarding fails.
    pub fn sink_query(&self, query: &mut Query) -> (r: bool)
        ensures
            self.sink_query_rel(*old(query), *final(query), r),
    {
        self.srcpad.peer_query(query)
    }

    /// Handle one event delivered on the source pad: forward it to the sink
    /// pad unchanged and return the push's flag verbatim.
    pub fn src_event(&mut self, event: Event) -> (r: bool)
        ensures
            Element::src_event_rel(*old(self), event, *final(self), r),
    {
        self.sinkpad.push_event(event)
    }

    /// Handle one query delivered on the source pad: forward it to the sink
    /// pad's peer.
    pub fn src_query(&self, query: &mut Query) -> (r: bool)
        ensures
            self.src_query_rel(*old(query), *final(query), r),
    {
        self.sinkpad.peer_query(query)
    }

    /// The lifecycle transition hook: reject a request that does not leave
    /// the current state, otherwise enter the target state, loading the
    /// stage's resources on Null-to-Ready and releasing them on
    /// Ready-to-Null.
    pub fn change_state(&mut self, transition: StateChange) -> (r: Result<
        StateChangeSuccess,
        StateChangeError,
    >)
        requires
            old(self).resources_in_step(),
        ensures
            Element::change_state_rel(*old(self), transition, *final(self), r),
    {
        let from = transition.source_state();
        if from != self.state {
            return Err(StateChangeError::WrongState);
        }
        match transition {
            StateChange::NullToReady => {
                match &mut self.detector {
                    Some(d) => d.load_resources(),
                    None => {},
                }
            },
            StateChange::ReadyToNull => {
                match &mut self.detector {
                    Some(d) => d.release_resources(),
                    None => {},
                }
            },
            _ => {},
        }
        self.state = transition.target_state();
        Ok(StateChangeSuccess::Success)
    }

    /// The buffer-chain callback as the host runtime invokes it, through the
    /// panic-safe dispatcher. `faulted` says whether the handler terminates
    /// abnormally on this invocation; the dispatcher then substitutes the
    /// flow-error fallback and the element is left untouched.
    pub fn chain_entry(&mut self, buffer: Buffer, faulted: bool) -> (r: Result<
        FlowSuccess,
        FlowError,
    >)
        requires
            old(self).wf(),
        ensures
            Element::chain_entry_rel(*old(self), buffer@, faulted, *final(self), r),
            final(self).wf(),
    {
        if faulted {
            dispatch_flow(HandlerOutcome::Faulted)
        } else {
            let res = self.sink_chain(buffer);
            dispatch_flow(HandlerOutcome::Completed(res))
        }
    }

    /// The sink event callback through the dispatcher: a fault yields `false`
    /// and leaves the element untouched.
    pub fn sink_event_entry(&mut self, event: Event, faulted: bool) -> (r: bool)
        requires
            old(self).wf(),
        ensures
            faulted ==> *final(self) == *old(self) && !r,
            !faulted ==> Element::sink_event_rel(*old(self), event, *final(self), r),
            final(self).wf(),
    {
        if faulted {
            dispatch_bool(HandlerOutcome::Faulted)
        } else {
            let res = self.sink_event(event);
            dispatch_bool(HandlerOutcome::Completed(res))
        }
    }

    /// The source event callback through the dispatcher.
    pub fn src_event_entry(&mut self, event: Event, faulted: bool) -> (r: bool)
        requires
            old(self).wf(),
        ensures
            faulted ==> *final(self) == *old(self) && !r,
            !faulted ==> Element::src_event_rel(*old(self), event, *final(self), r),
            final(self).wf(),
    {
        if faulted {
            dispatch_bool(HandlerOutcome::Faulted)
        } else {
            let res = self.src_event(event);
            dispatch_bool(HandlerOutcome::Completed(res))
        }
    }

    /// The sink query callback through the dispatcher: a fault yields `false`
    /// and the query is left exactly as it arrived.
    pub fn sink_query_entry(&self, query: &mut Query, faulted: bool) -> (r: bool)
        requires
            self.wf(),
        ensures
            faulted ==> *final(query) == *old(query) && !r,
            !faulted ==> self.sink_query_rel(*old(query), *final(query), r),
    {
        if faulted {
            dispatch_bool(HandlerOutcome::Faulted)
        } else {
            let res = self.sink_query(query);
            dispatch_bool(HandlerOutcome::Completed(res))
        }
    }

    /// The source query callback through the dispatcher.
    pub fn src_query_entry(&self, query: &mut Query, faulted: bool) -> (r: bool)
        requires
            self.wf(),
        ensures
            faulted ==> *final(query) == *old(query) && !r,
            !faulted ==> self.src_query_rel(*old(query), *final(query), r),
    {
        if faulted {
            dispatch_bool(HandlerOutcome::Faulted)
        } else {
            let res = self.src_query(query);
            dispatch_bool(HandlerOutcome::Completed(res))
        }
    }
}

/// Every buffer delivered to the sink yields exactly one push of its
/// (possibly transformed) value on the source, or a flow error with no push —
/// never both, never neither.
pub proof fn lemma_buffer_exactly_once(
    pre: Element,
    b: BufferView,
    post: Element,
    r: Result<FlowSuccess, FlowError>,
)
    requires
        Element::sink_chain_rel(pre, b, post, r),
    ensures
        ({
            ||| (pre.stage_output(b) matches Ok(pb) && pre.srcpad.is_linked()
                && post.srcpad.peer_buffers() == pre.srcpad.peer_buffers().push(pb))
            ||| (post.srcpad.peer_buffers() == pre.srcpad.peer_buffers() && r is Err)
        }),
        !(post.srcpad.peer_buffers().len() == pre.srcpad.peer_buffers().len() + 1
            && post.srcpad.peer_buffers() == pre.srcpad.peer_buffers()),
{
}

/// Events delivered on the sink are forwarded to the source peer
/// argument-for-argument and in delivery order: delivering `e1` then `e2`
/// extends the source peer's record with `e1` followed by `e2`.
pub proof fn lemma_sink_event_order(
    pre: Element,
    e1: Event,
    mid: Element,
    r1: bool,
    e2: Event,
    post: Element,
    r2: bool,
)
    requires
        pre.srcpad.is_linked(),
        Element::sink_event_rel(pre, e1, mid, r1),
        Element::sink_event_rel(mid, e2, post, r2),
    ensures
        post.srcpad.peer_events() == pre.srcpad.peer_events().push(e1).push(e2),
{
}

/// Events delivered on the source are forwarded to the sink peer in delivery
/// order, symmetrically.
pub proof fn lemma_src_event_order(
    pre: Element,
    e1: Event,
    mid: Element,
    r1: bool,
    e2: Event,
    post: Element,
    r2: bool,
)
    requires
        pre.sinkpad.is_linked(),
        Element::src_event_rel(pre, e1, mid, r1),
        Element::src_event_rel(mid, e2, post, r2),
    ensures
        post.sinkpad.peer_events() == pre.sinkpad.peer_events().push(e1).push(e2),
{
}

/// A run of event deliveries on the sink: `states` are the element states
/// before and after each delivery, and each step is one `sink_event_rel`
/// delivery of the matching event with the matching result.
pub open spec fn sink_event_trace(states: Seq<Element>, events: Seq<Event>, results: Seq<
    bool,
>) -> bool {
    &&& states.len() == events.len() + 1
    &&& results.len() == events.len()
    &&& forall|i: int|
        0 <= i < events.len() ==> Element::sink_event_rel(
            states[i],
            events[i],
            states[i + 1],
            results[i],
        )
}

/// A run of event deliveries on the source, symmetrically.
pub open spec fn src_event_trace(states: Seq<Element>, events: Seq<Event>, results: Seq<
    bool,
>) -> bool {
    &&& states.len() == events.len() + 1
    &&& results.len() == events.len()
    &&& forall|i: int|
        0 <= i < events.len() ==> Element::src_event_rel(
            states[i],
            events[i],
            states[i + 1],
            results[i],
        )
}

/// Delivery order is preserved in full: after any run of event deliveries on
/// the sink of a linked element, the source peer's record is the record it
/// had before, extended by exactly the delivered events, in delivery order.
pub proof fn lemma_sink_event_trace_order(
    states: Seq<Element>,
    events: Seq<Event>,
    results: Seq<bool>,
)
    requires
        sink_event_trace(states, events, results),
        states[0].srcpad.is_linked(),
    ensures
        states.last().srcpad.peer_events() == states[0].srcpad.peer_events() + events,
    decreases events.len(),
{
    if events.len() == 0 {
        assert(states.last().srcpad.peer_events() =~= states[0].srcpad.peer_events()
            + events);
    } else {
        let states2 = states.subrange(1, states.len() as int);
        let events2 = events.subrange(1, events.len() as int);
        let results2 = results.subrange(1, results.len() as int);
        assert(Element::sink_event_rel(states[0], events[0], states[1], results[0]));
        assert forall|i: int| 0 <= i < events2.len() implies Element::sink_event_rel(
            states2[i],
            events2[i],
            states2[i + 1],
            results2[i],
        ) by {
            assert(Element::sink_event_rel(
                states[i + 1],
                events[i + 1],
                states[i + 2],
                results[i + 1],
            ));
        }
        lemma_sink_event_trace_order(states2, events2, results2);
        assert(states2.last() == states.last());
        assert(states.last().srcpad.peer_events() == states[1].srcpad.peer_events()
            + events2);
        assert(states[1].srcpad.peer_events() + events2 =~= states[0].srcpad.peer_events()
            + events);
    }
}

/// Delivery order is preserved on the source side, symmetrically: the sink
/// peer's record is extended by exactly the delivered events, in order.
pub proof fn lemma_src_event_trace_order(
    states: Seq<Element>,
    events: Seq<Event>,
    results: Seq<bool>,
)
    requires
        src_event_trace(states, events, results),
        states[0].sinkpad.is_linked(),
    ensures
        states.last().sinkpad.peer_events() == states[0].sinkpad.peer_events() + events,
    decreases events.len(),
{
    if events.len() == 0 {
        assert(states.last().sinkpad.peer_events() =~= states[0].sinkpad.peer_events()
            + events);
    } else {
        let states2 = states.subrange(1, states.len() as int);
        let events2 = events.subrange(1, events.len() as int);
        let results2 = results.subrange(1, results.len() as int);
        assert(Element::src_event_rel(states[0], events[0], states[1], results[0]));
        assert forall|i: int| 0 <= i < events2.len() implies Element::src_event_rel(
            states2[i],
            events2[i],
            states2[i + 1],
            results2[i],
        ) by {
            assert(Element::src_event_rel(
                states[i + 1],
                events[i + 1],
                states[i + 2],
                results[i + 1],
            ));
        }
        lemma_src_event_trace_order(states2, events2, results2);
        assert(states2.last() == states.last());
        assert(states.last().sinkpad.peer_events() == states[1].sinkpad.peer_events()
            + events2);
        assert(states[1].sinkpad.peer_events() + events2 =~= states[0].sinkpad.peer_events()
            + events);
    }
}

/// A chain handler that faults yields the flow-error fallback and leaves the
/// element untouched, so a subsequent delivery behaves exactly as it would
/// have without the fault.
pub proof fn lemma_fault_leaves_element_usable(
    pre: Element,
    b1: BufferView,
    r1: Result<FlowSuccess, FlowError>,
    mid: Element,
    b2: BufferView,
    post: Element,
    r2: Result<FlowSuccess, FlowError>,
)
    requires
        Element::chain_entry_rel(pre, b1, true, mid, r1),
        Element::chain_entry_rel(mid, b2, false, post, r2),
    ensures
        r1 == Err::<FlowSuccess, FlowError>(FlowError::Error),
        mid == pre,
        Element::sink_chain_rel(pre, b2, post, r2),
{
}

/// A successful lifecycle transition leaves the element's current state and
/// moves exactly one rank up or down the ladder: no request can skip a
/// state.
pub proof fn lemma_lifecycle_no_skip(
    pre: Element,
    t: StateChange,
    post: Element,
    r: Result<StateChangeSuccess, StateChangeError>,
)
    requires
        Element::change_state_rel(pre, t, post, r),
        r is Ok,
    ensures
        t.from_state() == pre.state,
        post.state == t.to_state(),
        post.state.rank() == pre.state.rank() + 1 || post.state.rank() == pre.state.rank()
            - 1,
{
}

/// The stage's resources exist after any transition reaching Ready or above
/// and are released after a transition reaching Null.
pub proof fn lemma_stage_resources_track_state(
    pre: Element,
    t: StateChange,
    post: Element,
    r: Result<StateChangeSuccess, StateChangeError>,
)
    requires
        pre.resources_in_step(),
        pre.detector is Some,
        Element::change_state_rel(pre, t, post, r),
        r is Ok,
    ensures
        post.detector matches Some(d) && (d.resources_loaded <==> post.state.rank() >= 1),
{
}

} // verus!
