use vstd::prelude::*;

use crate::codec;

verus! {

/// A host-side event description produced by an interactive node: the
/// handle of the closure to invoke, and — for the stateful call shape —
/// its serialized payload.
///
/// The hosting widget collects these from user events and hands them to
/// the runtime, which routes them back into the closure dispatcher. The
/// payload's contents are opaque to the runtime.
pub struct Message {
    pub closure: u32,
    pub data: Option<Vec<u8>>,
}

impl Message {
    /// The event raised by a node wired through the no-payload shape,
    /// such as a button press.
    pub fn stateless(closure: u32) -> (m: Message)
        ensures
            m.closure == closure,
            m.data is None,
    {
        Message { closure, data: None }
    }

    /// The event raised by a checkbox toggle: invoke the closure with the
    /// new checked state, serialized.
    pub fn stateful(closure: u32, value: bool) -> (m: Message)
        ensures
            m.closure == closure,
            m.data matches Some(d) && d@ == codec::spec_encode_bool(value),
    {
        Message { closure, data: Some(serialize_bool(value)) }
    }
}

/// Relies on `bincode::serialize` for a `bool`: bincode's fixed scheme
/// writes exactly one byte, 1 for true and 0 for false, and cannot fail
/// when writing into a fresh vector.
#[verifier::external_body]
fn serialize_bool(value: bool) -> (r: Vec<u8>)
    ensures
        r@ == codec::spec_encode_bool(value),
{
    bincode::serialize(&value).unwrap()
}

} // verus!
