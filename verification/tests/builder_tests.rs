use thawing::closure::Closure;
use thawing::context::Context;
use thawing::counter::CounterThunk;
use thawing::error::{CallError, ResourceError};
use thawing::node::{Horizontal, Length, Node};

fn fresh() -> Context<CounterThunk> {
    Context::new()
}

#[test]
fn a_consumed_child_handle_is_dead() {
    let mut cx = fresh();
    let col = cx.column_new();
    let child = cx.text_new(String::from("hello"));
    assert_eq!(cx.column_push(col, child), Ok(col));
    // the child was folded into the column: its handle is gone
    assert_eq!(cx.take_node(child), None);
    assert_eq!(cx.column_push(col, child), Err(ResourceError::NotFound));
    match cx.take_node(col).expect("the column is still live") {
        Node::Column { children, .. } => {
            assert_eq!(children.len(), 1);
            match &children[0] {
                Node::Text { content, .. } => assert_eq!(content.as_str(), "hello"),
                _ => panic!("the child is the text node"),
            }
        },
        _ => panic!("a column was built"),
    }
}

#[test]
fn builder_calls_on_dead_or_foreign_handles_are_not_found() {
    let mut cx = fresh();
    let t = cx.text_new(String::from("x"));
    assert_eq!(cx.column_spacing(t, 4), Err(ResourceError::NotFound));
    assert_eq!(cx.text_size(9999, 10), Err(ResourceError::NotFound));
    let closure = cx.register_stateless(CounterThunk::Increment);
    assert_eq!(cx.text_size(closure, 10), Err(ResourceError::NotFound));
}

#[test]
fn text_attributes_accumulate() {
    let mut cx = fresh();
    let t = cx.text_new(String::from("size me"));
    assert_eq!(cx.text_size(t, 18), Ok(t));
    let style = cx.register_stateful(CounterThunk::Toggle);
    assert_eq!(cx.text_style(t, style), Ok(t));
    match cx.take_node(t).expect("the text is live") {
        Node::Text { content, size, style: style_h, .. } => {
            assert_eq!(content.as_str(), "size me");
            assert_eq!(size, Some(18));
            assert_eq!(style_h, Some(style));
        },
        _ => panic!("a text node was built"),
    }
}

#[test]
fn column_attributes_accumulate() {
    let mut cx = fresh();
    let col = cx.column_new();
    assert_eq!(cx.column_spacing(col, 4), Ok(col));
    assert_eq!(cx.column_padding(col, 20), Ok(col));
    assert_eq!(cx.column_width(col, Length::Fill), Ok(col));
    assert_eq!(cx.column_height(col, Length::Fixed(100)), Ok(col));
    assert_eq!(cx.column_max_width(col, 640), Ok(col));
    assert_eq!(cx.column_align_x(col, Horizontal::Center), Ok(col));
    assert_eq!(cx.column_clip(col, true), Ok(col));
    match cx.take_node(col).expect("the column is live") {
        Node::Column { spacing, padding, width, height, max_width, align_x, clip, children } => {
            assert_eq!(spacing, Some(4));
            assert_eq!(padding, Some(20));
            assert_eq!(width, Some(Length::Fill));
            assert_eq!(height, Some(Length::Fixed(100)));
            assert_eq!(max_width, Some(640));
            assert_eq!(align_x, Some(Horizontal::Center));
            assert!(clip);
            assert!(children.is_empty());
        },
        _ => panic!("a column was built"),
    }
}

#[test]
fn column_from_vec_collects_in_order_and_consumes() {
    let mut cx = fresh();
    let a = cx.text_new(String::from("a"));
    let b = cx.text_new(String::from("b"));
    let col = cx.column_from_vec(&vec![a, b]).expect("both children are live nodes");
    assert_eq!(cx.take_node(a), None);
    assert_eq!(cx.take_node(b), None);
    match cx.take_node(col).expect("the column is live") {
        Node::Column { children, .. } => {
            let texts: Vec<&str> = children
                .iter()
                .map(|n| match n {
                    Node::Text { content, .. } => content.as_str(),
                    _ => panic!("children are text nodes"),
                })
                .collect();
            assert_eq!(texts, vec!["a", "b"]);
        },
        _ => panic!("a column was built"),
    }
}

#[test]
fn column_from_vec_rejects_duplicates_and_dead_handles() {
    let mut cx = fresh();
    let a = cx.text_new(String::from("a"));
    assert_eq!(cx.column_from_vec(&vec![a, a]), Err(ResourceError::NotFound));
    // nothing was consumed by the failed call
    assert_eq!(cx.column_from_vec(&vec![a]).is_ok(), true);
    assert_eq!(cx.column_from_vec(&vec![a]), Err(ResourceError::NotFound));
}

#[test]
fn column_extend_appends_after_existing_children() {
    let mut cx = fresh();
    let first = cx.text_new(String::from("first"));
    let col = cx.column_from_vec(&vec![first]).unwrap();
    let c = cx.text_new(String::from("c"));
    let d = cx.text_new(String::from("d"));
    assert_eq!(cx.column_extend(col, &vec![c, d]), Ok(col));
    // a column cannot be folded into itself
    assert_eq!(cx.column_extend(col, &vec![col]), Err(ResourceError::NotFound));
    match cx.take_node(col).unwrap() {
        Node::Column { children, .. } => assert_eq!(children.len(), 3),
        _ => panic!("a column was built"),
    }
}

#[test]
fn button_wraps_and_consumes_its_content() {
    let mut cx = fresh();
    let label = cx.text_new(String::from("go"));
    let btn = cx.button_new(label).expect("the content is a live node");
    assert_eq!(cx.take_node(label), None);
    let press = cx.register_stateless(CounterThunk::Increment);
    assert_eq!(cx.button_on_press(btn, press), Ok(btn));
    match cx.take_node(btn).unwrap() {
        Node::Button { content, on_press } => {
            assert_eq!(on_press, Some(press));
            match *content {
                Node::Text { content, .. } => assert_eq!(content.as_str(), "go"),
                _ => panic!("the content is the text node"),
            }
        },
        _ => panic!("a button was built"),
    }
}

#[test]
fn checkbox_keeps_label_and_state() {
    let mut cx = fresh();
    let cb = cx.checkbox_new(String::from("check"), true);
    let toggle = cx.register_stateful(CounterThunk::Toggle);
    assert_eq!(cx.checkbox_on_toggle(cb, toggle), Ok(cb));
    match cx.take_node(cb).unwrap() {
        Node::Checkbox { label, checked, on_toggle } => {
            assert_eq!(label.as_str(), "check");
            assert!(checked);
            assert_eq!(on_toggle, Some(toggle));
        },
        _ => panic!("a checkbox was built"),
    }
}

#[test]
fn dropped_closures_stop_answering() {
    let mut cx = fresh();
    let h = cx.register_stateless(CounterThunk::Increment);
    assert!(cx.call(h).is_ok());
    cx.drop_handle(h);
    assert_eq!(cx.call(h), Err(CallError::NotFound));
    cx.drop_handle(h);
    assert_eq!(cx.call(h), Err(CallError::NotFound));
}

#[test]
fn a_node_handle_is_not_a_closure() {
    let mut cx = fresh();
    let t = cx.text_new(String::from("x"));
    assert_eq!(cx.call(t), Err(CallError::NotFound));
    assert_eq!(cx.call_with(t, &vec![1u8]), Err(CallError::NotFound));
}

#[test]
fn clear_kills_nodes_and_closures_alike() {
    let mut cx = fresh();
    let t = cx.text_new(String::from("x"));
    let h = cx.register_stateless(CounterThunk::Increment);
    cx.clear();
    assert_eq!(cx.take_node(t), None);
    assert_eq!(cx.call(h), Err(CallError::NotFound));
    let h2 = cx.register_stateless(CounterThunk::Increment);
    assert_ne!(h2, h);
    assert_ne!(h2, t);
}

#[test]
fn closure_shapes_are_not_interchangeable() {
    let c = Closure::stateless(CounterThunk::Increment);
    assert!(c.call().is_ok());
    assert_eq!(c.call_with(&vec![1u8]), Err(CallError::ShapeMismatch));
    assert_eq!(c.call_with(&vec![]), Err(CallError::ShapeMismatch));
    let c = Closure::stateful(CounterThunk::Toggle);
    assert_eq!(c.call(), Err(CallError::ShapeMismatch));
    assert!(c.call_with(&vec![1u8]).is_ok());
    assert_eq!(c.call_with(&vec![9u8]), Err(CallError::BadPayload));
}
