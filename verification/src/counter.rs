use vstd::prelude::*;

use crate::closure::{Shape, Thunk};
use crate::codec::{
    decode_bool, decode_i64, encode_bool, encode_i64, encode_u32, spec_decode_bool,
    spec_decode_i64, spec_decode_u32, spec_encode_bool, spec_encode_i64, spec_encode_u32,
};
use crate::context::Context;
use crate::decimal::{i64_to_string, spec_i64_decimal};
use crate::error::{CallError, ViewError};
use crate::node::{Horizontal, Node};
use crate::runtime::Component;

verus! {

/// The sample application's message type, as its outer layer decodes it
/// from closure results. `Reload` is raised by the host's file watcher
/// and never crosses the component boundary.
#[derive(Clone, Copy, Debug, PartialEq, Eq, Structural)]
pub enum Message {
    Reload,
    Toggled(bool),
    Increment,
    Decrement,
}

/// The sample message as bytes: a four-byte little-endian variant tag,
/// then the payload. `Reload` never crosses the boundary and has no
/// encoding.
pub open spec fn spec_encode_message(m: Message) -> Seq<u8>
    recommends
        m != Message::Reload,
{
    match m {
        Message::Reload => Seq::empty(),
        Message::Toggled(b) => spec_encode_u32(0).add(spec_encode_bool(b)),
        Message::Increment => spec_encode_u32(1),
        Message::Decrement => spec_encode_u32(2),
    }
}

/// The sample message a payload decodes to, or `None` for any byte string
/// that no message encodes to.
pub open spec fn spec_decode_message(s: Seq<u8>) -> Option<Message> {
    if s.len() == 5 && spec_decode_u32(s.take(4)) == 0 && (s[4] == 0u8 || s[4] == 1u8) {
        Some(Message::Toggled(s[4] == 1u8))
    } else if s.len() == 4 && spec_decode_u32(s) == 1 {
        Some(Message::Increment)
    } else if s.len() == 4 && spec_decode_u32(s) == 2 {
        Some(Message::Decrement)
    } else {
        None
    }
}

/// Decoding undoes encoding for every message that crosses the boundary.
pub proof fn lemma_message_round_trip(m: Message)
    requires
        m != Message::Reload,
    ensures
        spec_decode_message(spec_encode_message(m)) == Some(m),
{
    crate::codec::lemma_u32_round_trip(0);
    crate::codec::lemma_u32_round_trip(1);
    crate::codec::lemma_u32_round_trip(2);
    match m {
        Message::Toggled(b) => {
            let s = spec_encode_message(m);
            assert(s.take(4) =~= spec_encode_u32(0));
        },
        _ => {},
    }
}

/// A sample message as bytes.
pub fn encode_message(m: &Message) -> (r: Vec<u8>)
    requires
        !(m is Reload),
    ensures
        r@ =~= spec_encode_message(*m),
{
    match m {
        Message::Reload => Vec::new(),
        Message::Toggled(b) => {
            let mut out = encode_u32(0);
            let mut tail = encode_bool(*b);
            out.append(&mut tail);
            out
        },
        Message::Increment => encode_u32(1),
        Message::Decrement => encode_u32(2),
    }
}

/// The sample message a payload decodes to.
pub fn decode_message(data: &Vec<u8>) -> (r: Option<Message>)
    ensures
        r == spec_decode_message(data@),
{
    if data.len() == 5 {
        let tag = crate::codec::decode_u32(data, 0);
        proof {
            assert(data@.subrange(0, 4) =~= data@.take(4));
        }
        let flag = data[4];
        if tag == 0 && (flag == 0 || flag == 1) {
            Some(Message::Toggled(flag == 1))
        } else {
            None
        }
    } else if data.len() == 4 {
        let tag = crate::codec::decode_u32(data, 0);
        proof {
            assert(data@.subrange(0, 4) =~= data@);
        }
        if tag == 1 {
            Some(Message::Increment)
        } else if tag == 2 {
            Some(Message::Decrement)
        } else {
            None
        }
    } else {
        None
    }
}

/// The sample application's state as bytes: the counter, little-endian,
/// then the checked flag — the fixed schema its component expects.
pub open spec fn spec_encode_state(counter: i64, toggled: bool) -> Seq<u8> {
    spec_encode_i64(counter).add(spec_encode_bool(toggled))
}

/// The callbacks the sample component registers: a stateful toggle that
/// echoes the new checked state, and two stateless counter steps.
#[derive(Clone, Copy, Debug, PartialEq, Eq, Structural)]
pub enum CounterThunk {
    Toggle,
    Increment,
    Decrement,
}

impl Thunk for CounterThunk {
    open spec fn accepts(&self, payload: Seq<u8>) -> bool {
        match self {
            CounterThunk::Toggle => spec_decode_bool(payload) is Some,
            CounterThunk::Increment => true,
            CounterThunk::Decrement => true,
        }
    }

    open spec fn message(&self, payload: Seq<u8>) -> Seq<u8> {
        match self {
            CounterThunk::Toggle => spec_encode_message(
                Message::Toggled(spec_decode_bool(payload)->0),
            ),
            CounterThunk::Increment => spec_encode_message(Message::Increment),
            CounterThunk::Decrement => spec_encode_message(Message::Decrement),
        }
    }

    fn invoke(&self, payload: &Vec<u8>) -> (r: Result<Vec<u8>, CallError>) {
        match self {
            CounterThunk::Toggle => match decode_bool(payload) {
                Some(b) => Ok(encode_message(&Message::Toggled(b))),
                None => Err(CallError::BadPayload),
            },
            CounterThunk::Increment => Ok(encode_message(&Message::Increment)),
            CounterThunk::Decrement => Ok(encode_message(&Message::Decrement)),
        }
    }
}


/// The stateful round trip at the call boundary: the payload a host
/// serializes for the toggle closure is accepted, and the message routed
/// back is exactly what the bare callback computes on the decoded value.
/// Together with `Context::call_with`, whose result on a stateful handle
/// is the registered thunk's message, this pins the whole round trip.
pub proof fn lemma_stateful_round_trip(v: bool)
    ensures
        CounterThunk::Toggle.accepts(spec_encode_bool(v)),
        CounterThunk::Toggle.message(spec_encode_bool(v)) == spec_encode_message(
            Message::Toggled(v),
        ),
        spec_decode_message(CounterThunk::Toggle.message(spec_encode_bool(v))) == Some(
            Message::Toggled(v),
        ),
{
    crate::codec::lemma_bool_round_trip(v);
    lemma_message_round_trip(Message::Toggled(v));
}

/// The sample view program: a checkbox, a counter read-out, and a pair of
/// step buttons.
#[derive(Clone, Copy, Debug, PartialEq, Eq, Structural)]
pub struct MyApp {
    pub counter: i64,
    pub is_toggled: bool,
}

impl Component for MyApp {
    type Thunk = CounterThunk;

    open spec fn decode_state(state: Seq<u8>) -> Option<MyApp> {
        if state.len() == 9 && (state[8] == 0u8 || state[8] == 1u8) {
            Some(MyApp { counter: spec_decode_i64(state.take(8)), is_toggled: state[8] == 1u8 })
        } else {
            None
        }
    }

    open spec fn view_handles() -> nat {
        16
    }

    open spec fn view_spec(&self, cx: Context<CounterThunk>, root: Node) -> bool {
        &&& root is Column
        &&& root.children().len() == 4
        &&& root.padding() == Some(20u32)
        &&& root.align_x() == Some(Horizontal::Center)
        &&& {
            let cb = root.children()[0];
            &&& cb is Checkbox
            &&& cb.label() == "click me!"@
            &&& cb.checked() == self.is_toggled
            &&& (cb.on_toggle() matches Some(t) && {
                &&& cx.is_closure(t)
                &&& cx.closure_at(t).spec_shape() == Shape::Stateful
                &&& cx.closure_at(t).spec_thunk() == CounterThunk::Toggle
            })
        }
        &&& {
            let btn = root.children()[1];
            &&& btn is Button
            &&& btn.content() is Text
            &&& btn.content().text_content() == "Increment"@
            &&& (btn.on_press() matches Some(p) && {
                &&& cx.is_closure(p)
                &&& cx.closure_at(p).spec_shape() == Shape::Stateless
                &&& cx.closure_at(p).spec_thunk() == CounterThunk::Increment
            })
        }
        &&& {
            let txt = root.children()[2];
            &&& txt is Text
            &&& txt.text_content() == spec_i64_decimal(self.counter)
            &&& txt.text_size() == Some(50u32)
        }
        &&& {
            let btn = root.children()[3];
            &&& btn is Button
            &&& btn.content() is Text
            &&& btn.content().text_content() == "Decrement"@
            &&& (btn.on_press() matches Some(p) && {
                &&& cx.is_closure(p)
                &&& cx.closure_at(p).spec_shape() == Shape::Stateless
                &&& cx.closure_at(p).spec_thunk() == CounterThunk::Decrement
            })
        }
    }

    fn construct(state: &Vec<u8>) -> (r: Result<MyApp, ViewError>) {
        if state.len() == 9 {
            let flag = state[8];
            if flag == 0 || flag == 1 {
                let counter = decode_i64(state, 0);
                proof {
                    assert(state@.subrange(0, 8) =~= state@.take(8));
                }
                Ok(MyApp { counter, is_toggled: flag == 1 })
            } else {
                Err(ViewError::StateMismatch)
            }
        } else {
            Err(ViewError::StateMismatch)
        }
    }

    fn view(&self, cx: &mut Context<CounterThunk>) -> (root: Node) {
        let toggle = cx.register_stateful(CounterThunk::Toggle);
        let cb = cx.checkbox_new(String::from_str("click me!"), self.is_toggled);
        let cb = match cx.checkbox_on_toggle(cb, toggle) {
            Ok(h) => h,
            Err(_) => {
                proof {
                    assert(false);
                }
                cb
            },
        };
        let inc = cx.register_stateless(CounterThunk::Increment);
        let inc_text = cx.text_new(String::from_str("Increment"));
        let inc_btn = match cx.button_new(inc_text) {
            Ok(h) => h,
            Err(_) => {
                proof {
                    assert(false);
                }
                inc_text
            },
        };
        let inc_btn = match cx.button_on_press(inc_btn, inc) {
            Ok(h) => h,
            Err(_) => {
                proof {
                    assert(false);
                }
                inc_btn
            },
        };
        let counter_text = cx.text_new(i64_to_string(self.counter));
        let counter_text = match cx.text_size(counter_text, 50) {
            Ok(h) => h,
            Err(_) => {
                proof {
                    assert(false);
                }
                counter_text
            },
        };
        let dec = cx.register_stateless(CounterThunk::Decrement);
        let dec_text = cx.text_new(String::from_str("Decrement"));
        let dec_btn = match cx.button_new(dec_text) {
            Ok(h) => h,
            Err(_) => {
                proof {
                    assert(false);
                }
                dec_text
            },
        };
        let dec_btn = match cx.button_on_press(dec_btn, dec) {
            Ok(h) => h,
            Err(_) => {
                proof {
                    assert(false);
                }
                dec_btn
            },
        };
        let col = cx.column_new();
        let col = match cx.column_push(col, cb) {
            Ok(h) => h,
            Err(_) => {
                proof {
                    assert(false);
                }
                col
            },
        };
        let col = match cx.column_push(col, inc_btn) {
            Ok(h) => h,
            Err(_) => {
                proof {
                    assert(false);
                }
                col
            },
        };
        let col = match cx.column_push(col, counter_text) {
            Ok(h) => h,
            Err(_) => {
                proof {
                    assert(false);
                }
                col
            },
        };
        let col = match cx.column_push(col, dec_btn) {
            Ok(h) => h,
            Err(_) => {
                proof {
                    assert(false);
                }
                col
            },
        };
        let col = match cx.column_padding(col, 20) {
            Ok(h) => h,
            Err(_) => {
                proof {
                    assert(false);
                }
                col
            },
        };
        let col = match cx.column_align_x(col, Horizontal::Center) {
            Ok(h) => h,
            Err(_) => {
                proof {
                    assert(false);
                }
                col
            },
        };
        match cx.take_node(col) {
            Some(n) => n,
            None => {
                proof {
                    assert(false);
                }
                Node::Column {
                    children: Vec::new(),
                    spacing: None,
                    padding: None,
                    width: None,
                    height: None,
                    max_width: None,
                    align_x: None,
                    clip: false,
                }
            },
        }
    }
}

/// The sample host application's own state, serialized into the state
/// bytes the component constructs from.
#[derive(Clone, Copy, Debug, PartialEq, Eq, Structural)]
pub struct Counter {
    pub value: i64,
    pub is_checked: bool,
}

impl Counter {
    pub fn new() -> (r: Counter)
        ensures
            r.value == 0,
            !r.is_checked,
    {
        Counter { value: 0, is_checked: false }
    }

    /// Applies one decoded message to the host state: toggles set the
    /// flag, the steps move the counter by one, and a reload notification
    /// changes nothing.
    pub fn update(&mut self, message: &Message)
        requires
            message is Increment ==> old(self).value < i64::MAX,
            message is Decrement ==> old(self).value > i64::MIN,
        ensures
            match message {
                Message::Reload => *final(self) == *old(self),
                Message::Toggled(b) => final(self).is_checked == b
                    && final(self).value == old(self).value,
                Message::Increment => final(self).value == old(self).value + 1
                    && final(self).is_checked == old(self).is_checked,
                Message::Decrement => final(self).value == old(self).value - 1
                    && final(self).is_checked == old(self).is_checked,
            },
    {
        match message {
            Message::Reload => {},
            Message::Toggled(b) => {
                self.is_checked = *b;
            },
            Message::Increment => {
                self.value = self.value + 1;
            },
            Message::Decrement => {
                self.value = self.value - 1;
            },
        }
    }

    /// The state bytes the component constructs from.
    pub fn state_bytes(&self) -> (r: Vec<u8>)
        ensures
            r@ =~= spec_encode_state(self.value, self.is_checked),
    {
        let mut out = encode_i64(self.value);
        let mut tail = encode_bool(self.is_checked);
        out.append(&mut tail);
        out
    }
}

/// The stateful round trip at the state boundary: the component decodes
/// exactly the host value that was encoded.
pub proof fn lemma_state_round_trip(counter: i64, toggled: bool)
    ensures
        MyApp::decode_state(spec_encode_state(counter, toggled)) == Some(
            MyApp { counter, is_toggled: toggled },
        ),
{
    let s = spec_encode_state(counter, toggled);
    assert(s.take(8) =~= spec_encode_i64(counter));
    crate::codec::lemma_i64_round_trip(counter);
}

} // verus!
