use gst_plugin_ssd::dispatch::{dispatch_bool, dispatch_flow, HandlerOutcome};
use gst_plugin_ssd::signal::{FlowError, FlowSuccess};

#[test]
fn it_works() {
    assert_eq!(2 + 2, 4);
}

#[test]
fn dispatch_flow_passes_completed_through() {
    assert_eq!(
        dispatch_flow(HandlerOutcome::Completed(Ok(FlowSuccess::Success))),
        Ok(FlowSuccess::Success)
    );
    assert_eq!(
        dispatch_flow(HandlerOutcome::Completed(Err(FlowError::Eos))),
        Err(FlowError::Eos)
    );
}

#[test]
fn dispatch_flow_fault_becomes_flow_error() {
    assert_eq!(dispatch_flow(HandlerOutcome::Faulted), Err(FlowError::Error));
}

#[test]
fn dispatch_bool_fault_becomes_false() {
    assert!(!dispatch_bool(HandlerOutcome::Faulted));
    assert!(dispatch_bool(HandlerOutcome::Completed(true)));
    assert!(!dispatch_bool(HandlerOutcome::Completed(false)));
}
