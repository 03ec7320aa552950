use vstd::prelude::*;

use crate::error::CallError;

verus! {

/// A host-side callback registered by the guest and invoked later by
/// handle.
///
/// Every thunk works on opaque byte payloads: it decodes the payload into
/// its own typed value once, inside itself, computes a message, and
/// encodes the message back into bytes. Its two spec functions pin its
/// behaviour down: `accepts` says which payloads decode, and `message`
/// what comes back for an accepted payload.
pub trait Thunk: Sized {
    /// Whether the payload decodes to the thunk's expected type.
    spec fn accepts(&self, payload: Seq<u8>) -> bool;

    /// The encoded message returned for an accepted payload.
    spec fn message(&self, payload: Seq<u8>) -> Seq<u8>;

    /// Runs the callback on a payload. Fails exactly on the payloads that
    /// do not decode.
    fn invoke(&self, payload: &Vec<u8>) -> (r: Result<Vec<u8>, CallError>)
        ensures
            match r {
                Ok(m) => self.accepts(payload@) && m@ == self.message(payload@),
                Err(e) => !self.accepts(payload@) && e == CallError::BadPayload,
            },
    ;
}

/// The two call shapes a closure can be registered under. They are not
/// interchangeable: calling a closure through the wrong shape is a
/// `ShapeMismatch`, never a misinterpreted result.
#[derive(Clone, Copy, Debug, PartialEq, Eq, Structural)]
pub enum Shape {
    /// Invoked with no payload.
    Stateless,
    /// Invoked with a serialized payload.
    Stateful,
}

/// A callback registered under a handle: write-once at registration,
/// read-many at invocation, invalidated en masse on reload.
pub struct Closure<F> {
    shape: Shape,
    thunk: F,
}

impl<F: Thunk> Closure<F> {
    /// The shape the closure was registered under.
    pub closed spec fn spec_shape(&self) -> Shape {
        self.shape
    }

    /// The callback registered.
    pub closed spec fn spec_thunk(&self) -> F {
        self.thunk
    }

    /// Registers a callback under the no-payload shape.
    pub fn stateless(thunk: F) -> (c: Closure<F>)
        ensures
            c.spec_shape() == Shape::Stateless,
            c.spec_thunk() == thunk,
    {
        Closure { shape: Shape::Stateless, thunk }
    }

    /// Registers a callback under the payload-taking shape.
    pub fn stateful(thunk: F) -> (c: Closure<F>)
        ensures
            c.spec_shape() == Shape::Stateful,
            c.spec_thunk() == thunk,
    {
        Closure { shape: Shape::Stateful, thunk }
    }

    /// Invokes a stateless closure: the callback runs on an empty payload.
    /// On a stateful closure this is a `ShapeMismatch`.
    pub fn call(&self) -> (r: Result<Vec<u8>, CallError>)
        ensures
            match r {
                Ok(m) => self.spec_shape() == Shape::Stateless && self.spec_thunk().accepts(
                    Seq::<u8>::empty(),
                ) && m@ == self.spec_thunk().message(Seq::<u8>::empty()),
                Err(CallError::ShapeMismatch) => self.spec_shape() == Shape::Stateful,
                Err(CallError::BadPayload) => self.spec_shape() == Shape::Stateless
                    && !self.spec_thunk().accepts(Seq::<u8>::empty()),
                Err(CallError::NotFound) => false,
            },
    {
        match self.shape {
            Shape::Stateless => {
                let empty: Vec<u8> = Vec::new();
                self.thunk.invoke(&empty)
            },
            Shape::Stateful => Err(CallError::ShapeMismatch),
        }
    }

    /// Invokes a stateful closure on a payload. On a stateless closure
    /// this is always a `ShapeMismatch`, whatever the payload.
    pub fn call_with(&self, payload: &Vec<u8>) -> (r: Result<Vec<u8>, CallError>)
        ensures
            match r {
                Ok(m) => self.spec_shape() == Shape::Stateful && self.spec_thunk().accepts(
                    payload@,
                ) && m@ == self.spec_thunk().message(payload@),
                Err(CallError::ShapeMismatch) => self.spec_shape() == Shape::Stateless,
                Err(CallError::BadPayload) => self.spec_shape() == Shape::Stateful
                    && !self.spec_thunk().accepts(payload@),
                Err(CallError::NotFound) => false,
            },
    {
        match self.shape {
            Shape::Stateful => self.thunk.invoke(payload),
            Shape::Stateless => Err(CallError::ShapeMismatch),
        }
    }
}

} // verus!
