//! The three kinds of signal a connection point carries: buffers on the data
//! path, events travelling one way, and queries answered in place.

use vstd::prelude::*;

verus! {

/// Success code of the buffer data path.
#[derive(Clone, Copy, Debug, PartialEq, Eq, Structural)]
pub enum FlowSuccess {
    Success,
}

/// Error codes of the buffer data path. `NotLinked` is returned when a push
/// finds no peer; `Error` is the general failure, and the fallback the
/// dispatcher substitutes for a faulted chain handler.
#[derive(Clone, Copy, Debug, PartialEq, Eq, Structural)]
pub enum FlowError {
    NotLinked,
    Flushing,
    Eos,
    Error,
}

/// A unit of streamed payload data with timing metadata. `annotated` records
/// whether an analysis stage has marked the buffer with its results.
#[derive(Clone, Debug, PartialEq, Eq)]
pub struct Buffer {
    pub payload: Vec<u8>,
    pub pts: Option<u64>,
    pub annotated: bool,
}

/// The mathematical value of a `Buffer`.
pub struct BufferView {
    pub payload: Seq<u8>,
    pub pts: Option<u64>,
    pub annotated: bool,
}

impl View for Buffer {
    type V = BufferView;

    open spec fn view(&self) -> BufferView {
        BufferView { payload: self.payload@, pts: self.pts, annotated: self.annotated }
    }
}

impl Buffer {
    /// A fresh buffer carrying `payload` at presentation time `pts`, not yet
    /// annotated by any stage.
    pub fn new(payload: Vec<u8>, pts: Option<u64>) -> (b: Buffer)
        ensures
            b@.payload == payload@,
            b@.pts == pts,
            !b@.annotated,
    {
        Buffer { payload, pts, annotated: false }
    }
}

/// The type of a one-way control signal.
#[derive(Clone, Copy, Debug, PartialEq, Eq, Structural)]
pub enum EventKind {
    StreamStart,
    Segment,
    EndOfStream,
    FlushStart,
    FlushStop,
    Custom(u32),
}

/// A one-way control signal. Forwarding must keep it argument-for-argument
/// identical, so the sequence number travels with the kind.
#[derive(Clone, Copy, Debug, PartialEq, Eq, Structural)]
pub struct Event {
    pub kind: EventKind,
    pub seqnum: u32,
}

/// What a query asks for.
#[derive(Clone, Copy, Debug, PartialEq, Eq, Structural)]
pub enum QueryKind {
    Position,
    Duration,
}

/// A synchronous request/response control message. A peer that answers it
/// writes the answer into `response`; a failed forward leaves the query
/// exactly as it arrived.
#[derive(Clone, Copy, Debug, PartialEq, Eq)]
pub struct Query {
    pub kind: QueryKind,
    pub response: Option<u64>,
}

impl Query {
    /// A fresh, unanswered query.
    pub fn new(kind: QueryKind) -> (q: Query)
        ensures
            q.kind == kind,
            q.response is None,
    {
        Query { kind, response: None }
    }
}

} // verus!
