use gst_plugin_ssd::detector::StageMode;
use gst_plugin_ssd::element::{Element, ElementClass, Metadata};
use gst_plugin_ssd::lifecycle::StateChange;
use gst_plugin_ssd::pad::Peer;
use gst_plugin_ssd::signal::{
    Buffer, Event, EventKind, FlowError, FlowSuccess, Query, QueryKind,
};

fn running_element(stage: Option<StageMode>) -> Element {
    let class = ElementClass::class_init(
        Metadata {
            long_name: "SingleShotMultiBox",
            classification: "Generic",
            description: "Does nothing with the data",
            author: "test",
        },
        stage,
    );
    let mut e = Element::new_with_class(&class);
    e.constructed();
    e.change_state(StateChange::NullToReady).unwrap();
    e.change_state(StateChange::ReadyToPaused).unwrap();
    e.change_state(StateChange::PausedToPlaying).unwrap();
    e
}

fn ok_peer() -> Peer {
    Peer::new(Ok(FlowSuccess::Success), true, Some(42), None)
}

#[test]
fn buffer_pass_through_scenario() {
    let mut e = running_element(Some(StageMode::PassThrough));
    e.srcpad.link_peer(ok_peer());
    let r = e.chain_entry(Buffer::new(vec![b'X'], Some(1)), false);
    assert_eq!(r, Ok(FlowSuccess::Success));
    let peer = e.srcpad.peer.as_ref().unwrap();
    assert_eq!(peer.received_buffers.len(), 1);
    assert_eq!(peer.received_buffers[0].payload, vec![b'X']);
    assert_eq!(peer.received_buffers[0].pts, Some(1));
    assert!(!peer.received_buffers[0].annotated);
}

#[test]
fn buffer_annotate_scenario() {
    let mut e = running_element(Some(StageMode::Annotate));
    e.srcpad.link_peer(ok_peer());
    let r = e.chain_entry(Buffer::new(vec![b'X'], None), false);
    assert_eq!(r, Ok(FlowSuccess::Success));
    let peer = e.srcpad.peer.as_ref().unwrap();
    assert_eq!(peer.received_buffers.len(), 1);
    assert_eq!(peer.received_buffers[0].payload, vec![b'X']);
    assert!(peer.received_buffers[0].annotated);
}

#[test]
fn buffer_without_stage_forwarded_unchanged() {
    let mut e = running_element(None);
    e.srcpad.link_peer(ok_peer());
    let r = e.sink_chain(Buffer::new(vec![1, 2, 3], Some(9)));
    assert_eq!(r, Ok(FlowSuccess::Success));
    let peer = e.srcpad.peer.as_ref().unwrap();
    assert_eq!(
        peer.received_buffers,
        vec![Buffer::new(vec![1, 2, 3], Some(9))]
    );
}

#[test]
fn downstream_error_propagates_verbatim() {
    let mut e = running_element(None);
    e.srcpad
        .link_peer(Peer::new(Err(FlowError::Flushing), true, None, None));
    let r = e.sink_chain(Buffer::new(vec![1, 2], None));
    assert_eq!(r, Err(FlowError::Flushing));
    assert_eq!(e.srcpad.peer.as_ref().unwrap().received_buffers.len(), 1);
}

#[test]
fn unlinked_push_returns_not_linked() {
    let mut e = running_element(None);
    let r = e.sink_chain(Buffer::new(vec![1], None));
    assert_eq!(r, Err(FlowError::NotLinked));
}

#[test]
fn eos_event_forwarded_downstream() {
    let mut e = running_element(Some(StageMode::PassThrough));
    e.srcpad.link_peer(ok_peer());
    let ev = Event {
        kind: EventKind::EndOfStream,
        seqnum: 5,
    };
    let ok = e.sink_event_entry(ev, false);
    assert!(ok);
    let peer = e.srcpad.peer.as_ref().unwrap();
    assert_eq!(peer.received_events, vec![ev]);
}

#[test]
fn event_order_preserved_each_direction() {
    let mut e = running_element(None);
    e.srcpad.link_peer(ok_peer());
    e.sinkpad.link_peer(ok_peer());
    let e1 = Event {
        kind: EventKind::StreamStart,
        seqnum: 1,
    };
    let e2 = Event {
        kind: EventKind::Segment,
        seqnum: 2,
    };
    assert!(e.sink_event(e1));
    assert!(e.sink_event(e2));
    assert_eq!(e.srcpad.peer.as_ref().unwrap().received_events, vec![e1, e2]);
    let e3 = Event {
        kind: EventKind::Custom(7),
        seqnum: 3,
    };
    let e4 = Event {
        kind: EventKind::FlushStart,
        seqnum: 4,
    };
    assert!(e.src_event(e3));
    assert!(e.src_event(e4));
    assert_eq!(
        e.sinkpad.peer.as_ref().unwrap().received_events,
        vec![e3, e4]
    );
}

#[test]
fn event_push_unlinked_returns_false() {
    let mut e = running_element(None);
    let ev = Event {
        kind: EventKind::FlushStop,
        seqnum: 1,
    };
    assert!(!e.sink_event(ev));
    assert!(!e.src_event(ev));
}

#[test]
fn event_peer_refusal_returned_verbatim() {
    let mut e = running_element(None);
    e.srcpad.link_peer(Peer::new(Ok(FlowSuccess::Success), false, None, None));
    let ev = Event {
        kind: EventKind::Segment,
        seqnum: 8,
    };
    assert!(!e.sink_event(ev));
    assert_eq!(e.srcpad.peer.as_ref().unwrap().received_events, vec![ev]);
}

#[test]
fn query_answered_by_peer() {
    let mut e = running_element(None);
    e.srcpad
        .link_peer(Peer::new(Ok(FlowSuccess::Success), true, Some(1234), None));
    let mut q = Query::new(QueryKind::Position);
    assert!(e.sink_query(&mut q));
    assert_eq!(q.response, Some(1234));
    let mut q2 = Query::new(QueryKind::Duration);
    assert!(!e.sink_query(&mut q2));
    assert_eq!(q2.response, None);
}

#[test]
fn src_query_without_upstream_peer_unmodified() {
    let e = running_element(None);
    let mut q = Query::new(QueryKind::Position);
    let ok = e.src_query_entry(&mut q, false);
    assert!(!ok);
    assert_eq!(q, Query::new(QueryKind::Position));
}

#[test]
fn src_query_answered_by_upstream_peer() {
    let mut e = running_element(None);
    e.sinkpad
        .link_peer(Peer::new(Ok(FlowSuccess::Success), true, None, Some(99)));
    let mut q = Query::new(QueryKind::Duration);
    assert!(e.src_query(&mut q));
    assert_eq!(q.response, Some(99));
}
