use gst_plugin_ssd::detector::{Detector, StageError, StageMode};
use gst_plugin_ssd::element::{Element, ElementClass, Metadata};
use gst_plugin_ssd::lifecycle::StateChange;
use gst_plugin_ssd::pad::Peer;
use gst_plugin_ssd::signal::{Buffer, FlowError, FlowSuccess, Query, QueryKind};

fn running_element(stage: Option<StageMode>) -> Element {
    let class = ElementClass::class_init(
        Metadata {
            long_name: "SingleShotMultiBox",
            classification: "Generic",
            description: "Does nothing with the data",
            author: "test",
        },
        stage,
    );
    let mut e = Element::new_with_class(&class);
    e.constructed();
    e.change_state(StateChange::NullToReady).unwrap();
    e.change_state(StateChange::ReadyToPaused).unwrap();
    e.change_state(StateChange::PausedToPlaying).unwrap();
    e
}

fn ok_peer() -> Peer {
    Peer::new(Ok(FlowSuccess::Success), true, Some(42), None)
}

#[test]
fn stage_fault_gives_flow_error_and_zero_pushes() {
    let mut e = running_element(Some(StageMode::Fault));
    e.srcpad.link_peer(ok_peer());
    let r = e.chain_entry(Buffer::new(vec![1], None), false);
    assert_eq!(r, Err(FlowError::Error));
    assert_eq!(e.srcpad.peer.as_ref().unwrap().received_buffers.len(), 0);
    let r2 = e.chain_entry(Buffer::new(vec![2], None), false);
    assert_eq!(r2, Err(FlowError::Error));
    assert_eq!(e.srcpad.peer.as_ref().unwrap().received_buffers.len(), 0);
}

#[test]
fn faulted_handler_leaves_element_usable() {
    let mut e = running_element(Some(StageMode::PassThrough));
    e.srcpad.link_peer(ok_peer());
    let r = e.chain_entry(Buffer::new(vec![9], None), true);
    assert_eq!(r, Err(FlowError::Error));
    assert_eq!(e.srcpad.peer.as_ref().unwrap().received_buffers.len(), 0);
    let r2 = e.chain_entry(Buffer::new(vec![9], None), false);
    assert_eq!(r2, Ok(FlowSuccess::Success));
    let peer = e.srcpad.peer.as_ref().unwrap();
    assert_eq!(peer.received_buffers.len(), 1);
    assert_eq!(peer.received_buffers[0].payload, vec![9]);
}

#[test]
fn faulted_query_leaves_query_unchanged() {
    let mut e = running_element(None);
    e.srcpad
        .link_peer(Peer::new(Ok(FlowSuccess::Success), true, Some(5), None));
    let mut q = Query::new(QueryKind::Position);
    assert!(!e.sink_query_entry(&mut q, true));
    assert_eq!(q.response, None);
}

#[test]
fn detector_process_modes() {
    let mut d = Detector::init(StageMode::PassThrough);
    assert!(!d.resources_loaded);
    d.load_resources();
    let out = d.process(Buffer::new(vec![1, 2, 3], Some(4))).unwrap();
    assert_eq!(out.payload, vec![1, 2, 3]);
    assert_eq!(out.pts, Some(4));
    assert!(!out.annotated);

    let mut d2 = Detector::init(StageMode::Annotate);
    d2.load_resources();
    let out2 = d2.process(Buffer::new(vec![5], None)).unwrap();
    assert!(out2.annotated);
    assert_eq!(out2.payload, vec![5]);
    assert_eq!(out2.pts, None);

    let mut d3 = Detector::init(StageMode::Fault);
    d3.load_resources();
    assert_eq!(
        d3.process(Buffer::new(vec![], None)),
        Err(StageError::ProcessFailed)
    );
    d3.release_resources();
    assert!(!d3.resources_loaded);
}
