use thawing::artifact::{ArtifactInfo, EntryPoint, Import};
use thawing::counter::{decode_message, Counter, Message as AppMessage, MyApp};
use thawing::error::{CallError, Error, LoadError};
use thawing::guest::Message;
use thawing::node::Node;
use thawing::runtime::{Runtime, Status};

fn good_artifact() -> Option<ArtifactInfo> {
    Some(ArtifactInfo::complete())
}

fn warm_runtime(counter: i64, toggled: bool) -> Runtime<MyApp> {
    let host = Counter { value: counter, is_checked: toggled };
    let mut rt: Runtime<MyApp> = Runtime::new(host.state_bytes());
    rt.reload(&good_artifact()).expect("load should succeed");
    rt
}

fn root_children(rt: &Runtime<MyApp>) -> &Vec<Node> {
    match rt.root().as_ref().expect("a warm runtime has a tree") {
        Node::Column { children, .. } => children,
        _ => panic!("the sample root is a column"),
    }
}

fn toggle_handle(rt: &Runtime<MyApp>) -> u32 {
    match &root_children(rt)[0] {
        Node::Checkbox { on_toggle, .. } => on_toggle.expect("the checkbox is wired"),
        _ => panic!("first child is the checkbox"),
    }
}

fn increment_handle(rt: &Runtime<MyApp>) -> u32 {
    match &root_children(rt)[1] {
        Node::Button { on_press, .. } => on_press.expect("the button is wired"),
        _ => panic!("second child is the increment button"),
    }
}

fn counter_text(rt: &Runtime<MyApp>) -> String {
    match &root_children(rt)[2] {
        Node::Text { content, size, .. } => {
            assert_eq!(*size, Some(50));
            content.clone()
        },
        _ => panic!("third child is the counter text"),
    }
}

#[test]
fn load_rejects_a_malformed_artifact() {
    let mut rt: Runtime<MyApp> = Runtime::new(Counter::new().state_bytes());
    let r = rt.reload(&None);
    assert!(matches!(r, Err(Error::Load(LoadError::Malformed))));
    assert!(matches!(rt.status_now(), Status::Failed));
    assert!(rt.root().is_none());
}

#[test]
fn load_rejects_a_missing_export() {
    let mut exports = Vec::new();
    exports.push(EntryPoint::Construct);
    exports.push(EntryPoint::View);
    exports.push(EntryPoint::Call);
    // call-with is absent
    let info = ArtifactInfo { exports, imports: Vec::new() };
    let mut rt: Runtime<MyApp> = Runtime::new(Counter::new().state_bytes());
    let r = rt.reload(&Some(info));
    assert!(matches!(r, Err(Error::Load(LoadError::MissingExport))));
    assert!(matches!(rt.status_now(), Status::Failed));
}

#[test]
fn load_rejects_an_unknown_import() {
    let mut info = ArtifactInfo::complete();
    info.imports.push(Import::Unknown);
    let mut rt: Runtime<MyApp> = Runtime::new(Counter::new().state_bytes());
    let r = rt.reload(&Some(info));
    assert!(matches!(r, Err(Error::Load(LoadError::ImportMismatch))));
}

#[test]
fn failed_is_not_terminal() {
    let mut rt: Runtime<MyApp> = Runtime::new(Counter::new().state_bytes());
    assert!(rt.reload(&None).is_err());
    assert!(matches!(rt.status_now(), Status::Failed));
    assert!(rt.reload(&good_artifact()).is_ok());
    assert!(matches!(rt.status_now(), Status::Warm));
    assert!(rt.root().is_some());
}

#[test]
fn a_failed_reload_keeps_the_warm_instance() {
    let mut rt = warm_runtime(3, false);
    let inc = increment_handle(&rt);
    let r = rt.reload(&None);
    assert!(matches!(r, Err(Error::Load(LoadError::Malformed))));
    assert!(matches!(rt.status_now(), Status::Warm));
    // the previous instance is untouched: its closures still answer
    assert!(rt.call(&Message::stateless(inc)).is_ok());
}

#[test]
fn construct_rejects_mismatched_state_bytes() {
    let mut rt: Runtime<MyApp> = Runtime::new(vec![1, 2, 3]);
    let r = rt.reload(&good_artifact());
    assert!(matches!(
        r,
        Err(Error::View(thawing::error::ViewError::StateMismatch))
    ));
    assert!(matches!(rt.status_now(), Status::Warm));
    assert!(rt.root().is_none());
}

#[test]
fn reload_sets_the_redraw_flag_once() {
    let mut rt = warm_runtime(0, false);
    assert!(rt.take_invalidated());
    assert!(!rt.take_invalidated());
}

#[test]
fn calls_on_a_cold_runtime_find_nothing() {
    let rt: Runtime<MyApp> = Runtime::new(Counter::new().state_bytes());
    let r = rt.call(&Message::stateless(0));
    assert_eq!(r, Err(CallError::NotFound));
}

#[test]
fn calls_on_a_dead_handle_find_nothing() {
    let rt = warm_runtime(0, false);
    let r = rt.call(&Message::stateless(9999));
    assert_eq!(r, Err(CallError::NotFound));
}

#[test]
fn stateful_message_serializes_the_flag() {
    let m = Message::stateful(5, true);
    assert_eq!(m.closure, 5);
    assert_eq!(m.data, Some(vec![1u8]));
    let m = Message::stateful(5, false);
    assert_eq!(m.data, Some(vec![0u8]));
}

#[test]
fn shape_mismatch_on_a_stateless_handle_called_with_payload() {
    let rt = warm_runtime(0, false);
    let inc = increment_handle(&rt);
    // any payload: the shapes are not interchangeable
    for payload in [vec![], vec![1u8], vec![1u8, 2, 3, 4, 5, 6]] {
        let r = rt.call(&Message { closure: inc, data: Some(payload) });
        assert_eq!(r, Err(CallError::ShapeMismatch));
    }
}

#[test]
fn shape_mismatch_on_a_stateful_handle_called_without_payload() {
    let rt = warm_runtime(0, false);
    let toggle = toggle_handle(&rt);
    let r = rt.call(&Message::stateless(toggle));
    assert_eq!(r, Err(CallError::ShapeMismatch));
}

#[test]
fn bad_payload_on_the_toggle_closure() {
    let rt = warm_runtime(0, false);
    let toggle = toggle_handle(&rt);
    let r = rt.call(&Message { closure: toggle, data: Some(vec![7u8]) });
    assert_eq!(r, Err(CallError::BadPayload));
}

#[test]
fn stateful_round_trip_through_the_dispatcher() {
    let rt = warm_runtime(0, false);
    let toggle = toggle_handle(&rt);
    let bytes = rt
        .call(&Message::stateful(toggle, true))
        .expect("a wired stateful closure answers");
    assert_eq!(decode_message(&bytes), Some(AppMessage::Toggled(true)));
    let bytes = rt
        .call(&Message::stateful(toggle, false))
        .expect("a wired stateful closure answers");
    assert_eq!(decode_message(&bytes), Some(AppMessage::Toggled(false)));
}

#[test]
fn counter_scenario() {
    // construct with state bytes encoding a zero counter
    let mut host = Counter::new();
    let mut rt = warm_runtime(host.value, host.is_checked);
    assert_eq!(counter_text(&rt).as_str(), "0");

    // the tree contains a button wired to a stateless closure; calling it
    // returns a message decoding to Increment
    let inc = increment_handle(&rt);
    let bytes = rt.call(&Message::stateless(inc)).expect("the button is wired");
    let message = decode_message(&bytes).expect("the message decodes");
    assert_eq!(message, AppMessage::Increment);

    // the host applies it and reconstructs with the new state bytes
    host.update(&message);
    assert_eq!(host.value, 1);
    rt.set_state(host.state_bytes());
    rt.view_pass().expect("the state bytes decode");

    // the rendered text node now reads "1"
    assert_eq!(counter_text(&rt).as_str(), "1");
}

#[test]
fn reload_scenario() {
    let mut rt = warm_runtime(0, false);
    let old_toggle = toggle_handle(&rt);
    assert!(rt.call(&Message::stateful(old_toggle, true)).is_ok());

    rt.reload(&good_artifact()).expect("the reload succeeds");

    // the previously registered toggle closure's handle must fail
    let r = rt.call(&Message::stateful(old_toggle, true));
    assert_eq!(r, Err(CallError::NotFound));

    // while a freshly obtained handle from the new pass must succeed
    let new_toggle = toggle_handle(&rt);
    assert_ne!(new_toggle, old_toggle);
    let bytes = rt
        .call(&Message::stateful(new_toggle, true))
        .expect("the fresh handle answers");
    assert_eq!(decode_message(&bytes), Some(AppMessage::Toggled(true)));
}

#[test]
fn view_pass_invalidates_previous_handles() {
    let mut rt = warm_runtime(0, false);
    let old_inc = increment_handle(&rt);
    rt.view_pass().expect("the state bytes decode");
    assert_eq!(rt.call(&Message::stateless(old_inc)), Err(CallError::NotFound));
    let new_inc = increment_handle(&rt);
    assert_ne!(new_inc, old_inc);
    assert!(rt.call(&Message::stateless(new_inc)).is_ok());
}

#[test]
fn the_tree_mirrors_the_state() {
    let rt = warm_runtime(-12, true);
    assert_eq!(counter_text(&rt).as_str(), "-12");
    match &root_children(&rt)[0] {
        Node::Checkbox { label, checked, on_toggle } => {
            assert_eq!(label.as_str(), "click me!");
            assert!(*checked);
            assert!(on_toggle.is_some());
        },
        _ => panic!("first child is the checkbox"),
    }
    match &root_children(&rt)[3] {
        Node::Button { content, on_press } => {
            assert!(on_press.is_some());
            match content.as_ref() {
                Node::Text { content, .. } => assert_eq!(content.as_str(), "Decrement"),
                _ => panic!("the button wraps a text node"),
            }
        },
        _ => panic!("fourth child is the decrement button"),
    }
}

#[test]
fn load_errors_describe_themselves() {
    assert!(!LoadError::Malformed.message().is_empty());
    assert!(!LoadError::MissingExport.message().is_empty());
    assert!(!LoadError::ImportMismatch.message().is_empty());
}
