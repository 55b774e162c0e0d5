use gst_plugin_ssd::detector::StageMode;
use gst_plugin_ssd::element::{Element, ElementClass, Metadata};
use gst_plugin_ssd::lifecycle::{
    ElementState, StateChange, StateChangeError, StateChangeSuccess,
};

fn detector_element() -> Element {
    let class = ElementClass::class_init(
        Metadata {
            long_name: "SingleShotMultiBox",
            classification: "Generic",
            description: "Does nothing with the data",
            author: "test",
        },
        Some(StageMode::PassThrough),
    );
    let mut e = Element::new_with_class(&class);
    e.constructed();
    e
}

#[test]
fn forward_and_backward_walk() {
    let mut e = detector_element();
    assert_eq!(e.state, ElementState::Null);
    assert_eq!(
        e.change_state(StateChange::NullToReady),
        Ok(StateChangeSuccess::Success)
    );
    assert_eq!(e.state, ElementState::Ready);
    assert_eq!(
        e.change_state(StateChange::ReadyToPaused),
        Ok(StateChangeSuccess::Success)
    );
    assert_eq!(e.state, ElementState::Paused);
    assert_eq!(
        e.change_state(StateChange::PausedToPlaying),
        Ok(StateChangeSuccess::Success)
    );
    assert_eq!(e.state, ElementState::Playing);
    assert_eq!(
        e.change_state(StateChange::PlayingToPaused),
        Ok(StateChangeSuccess::Success)
    );
    assert_eq!(
        e.change_state(StateChange::PausedToReady),
        Ok(StateChangeSuccess::Success)
    );
    assert_eq!(
        e.change_state(StateChange::ReadyToNull),
        Ok(StateChangeSuccess::Success)
    );
    assert_eq!(e.state, ElementState::Null);
}

#[test]
fn skipping_transition_is_rejected() {
    let mut e = detector_element();
    assert_eq!(
        e.change_state(StateChange::PausedToPlaying),
        Err(StateChangeError::WrongState)
    );
    assert_eq!(e.state, ElementState::Null);
    assert_eq!(
        e.change_state(StateChange::ReadyToPaused),
        Err(StateChangeError::WrongState)
    );
    assert_eq!(e.state, ElementState::Null);
    assert_eq!(
        e.change_state(StateChange::ReadyToNull),
        Err(StateChangeError::WrongState)
    );
    assert_eq!(e.state, ElementState::Null);
}

#[test]
fn stage_resources_follow_lifecycle() {
    let mut e = detector_element();
    assert!(!e.detector.as_ref().unwrap().resources_loaded);
    e.change_state(StateChange::NullToReady).unwrap();
    assert!(e.detector.as_ref().unwrap().resources_loaded);
    e.change_state(StateChange::ReadyToPaused).unwrap();
    assert!(e.detector.as_ref().unwrap().resources_loaded);
    e.change_state(StateChange::PausedToPlaying).unwrap();
    assert!(e.detector.as_ref().unwrap().resources_loaded);
    e.change_state(StateChange::PlayingToPaused).unwrap();
    e.change_state(StateChange::PausedToReady).unwrap();
    assert!(e.detector.as_ref().unwrap().resources_loaded);
    e.change_state(StateChange::ReadyToNull).unwrap();
    assert!(!e.detector.as_ref().unwrap().resources_loaded);
}

#[test]
fn transition_endpoints() {
    assert_eq!(StateChange::NullToReady.source_state(), ElementState::Null);
    assert_eq!(StateChange::NullToReady.target_state(), ElementState::Ready);
    assert_eq!(StateChange::ReadyToNull.source_state(), ElementState::Ready);
    assert_eq!(StateChange::ReadyToNull.target_state(), ElementState::Null);
    assert_eq!(
        StateChange::PausedToPlaying.target_state(),
        ElementState::Playing
    );
}
