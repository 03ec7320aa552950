use vstd::prelude::*;

use crate::closure::{Closure, Shape, Thunk};
use crate::error::{CallError, ResourceError};
use crate::node::Node;
use crate::table::Table;

verus! {

/// One entry of an instance's resource table: a user-interface node under
/// construction, or a pending closure.
pub enum Object<F> {
    Node(Node),
    Closure(Closure<F>),
}

/// An instance's resource table together with the builder-call and
/// closure-dispatch surface the guest drives against it.
///
/// Every guest-observable object lives here under a small integer handle;
/// nodes and closures share one handle space. Builder calls that update a
/// node keep its handle stable for chaining; calls that fold a child into
/// a parent consume the child's handle for good.
pub struct Context<F> {
    pub(crate) table: Table<Object<F>>,
}

impl<F: Thunk> Context<F> {
    pub open(crate) spec fn wf(&self) -> bool {
        self.table.wf()
    }

    /// How many handles this context has issued over its whole lifetime.
    pub open(crate) spec fn issued(&self) -> int {
        self.table.issued()
    }

    /// Handles below this bound were invalidated wholesale by a clear.
    pub open(crate) spec fn lower(&self) -> int {
        self.table.lower()
    }

    /// Whether a handle denotes a live object of the current instance.
    pub open(crate) spec fn live(&self, h: u32) -> bool {
        self.table.valid(h)
    }

    /// The object under a live handle.
    pub open(crate) spec fn obj_at(&self, h: u32) -> Object<F> {
        self.table.at(h)
    }

    /// Whether a handle denotes a live node.
    pub open spec fn is_node(&self, h: u32) -> bool {
        self.live(h) && self.obj_at(h) is Node
    }

    /// The node under a handle.
    pub open spec fn node_at(&self, h: u32) -> Node
        recommends
            self.is_node(h),
    {
        match self.obj_at(h) {
            Object::Node(n) => n,
            Object::Closure(_) => arbitrary(),
        }
    }

    /// Whether a handle denotes a live closure.
    pub open spec fn is_closure(&self, h: u32) -> bool {
        self.live(h) && self.obj_at(h) is Closure
    }

    /// The closure under a handle.
    pub open spec fn closure_at(&self, h: u32) -> Closure<F>
        recommends
            self.is_closure(h),
    {
        match self.obj_at(h) {
            Object::Closure(c) => c,
            Object::Node(_) => arbitrary(),
        }
    }

    /// A live handle always lies in the issued window.
    pub proof fn lemma_live_bounds(&self, h: u32)
        requires
            self.live(h),
        ensures
            self.lower() <= h < self.issued(),
    {
        self.table.lemma_valid_bounds(h);
    }

    pub fn new() -> (r: Context<F>)
        ensures
            r.wf(),
            r.issued() == 0,
            r.lower() == 0,
            forall|h: u32| !r.live(h),
    {
        Context { table: Table::new() }
    }


    /// How many handles this context has issued, as a number the host can
    /// read against its handle budget.
    pub fn issued_count(&self) -> (n: u64)
        requires
            self.wf(),
        ensures
            n == self.issued(),
    {
        self.table.issued_count()
    }

    /// Invalidates every handle — nodes and closures alike — without
    /// disturbing the issue count. This is the reload boundary: handles
    /// issued afterwards are still distinct from every handle issued
    /// before.
    pub fn clear(&mut self)
        requires
            old(self).wf(),
        ensures
            final(self).wf(),
            final(self).issued() == old(self).issued(),
            final(self).lower() == old(self).issued(),
            forall|h: u32| !final(self).live(h),
    {
        self.table.clear();
    }

    /// Explicit release of a handle, on the guest's signal that it no
    /// longer needs it; a double drop is a no-op, not an error.
    pub fn drop_handle(&mut self, h: u32)
        requires
            old(self).wf(),
        ensures
            final(self).wf(),
            final(self).issued() == old(self).issued(),
            final(self).lower() == old(self).lower(),
            !final(self).live(h),
            forall|h2: u32| h2 != h ==> (final(self).live(h2) <==> old(self).live(h2)),
            forall|h2: u32|
                h2 != h && old(self).live(h2) ==> final(self).obj_at(h2) == old(self).obj_at(h2),
    {
        self.table.drop_handle(h);
    }

    /// Removes a node from the table and hands it to the caller; used when
    /// the host extracts the finished root. `None` iff the handle is not a
    /// live node.
    pub fn take_node(&mut self, h: u32) -> (r: Option<Node>)
        requires
            old(self).wf(),
        ensures
            final(self).wf(),
            final(self).issued() == old(self).issued(),
            final(self).lower() == old(self).lower(),
            match r {
                Some(n) => old(self).is_node(h) && n == old(self).node_at(h),
                None => !old(self).is_node(h),
            },
            r is Some ==> !final(self).live(h),
            r is None ==> *final(self) == *old(self),
            forall|h2: u32| h2 != h ==> (final(self).live(h2) <==> old(self).live(h2)),
            forall|h2: u32|
                h2 != h && old(self).live(h2) ==> final(self).obj_at(h2) == old(self).obj_at(h2),
    {
        let is_node = match self.table.get(h) {
            Some(Object::Node(_)) => true,
            _ => false,
        };
        if !is_node {
            return None;
        }
        match self.table.take(h) {
            Some(Object::Node(n)) => Some(n),
            _ => {
                proof {
                    assert(false);
                }
                None
            },
        }
    }

    /// Registers a callback under the no-payload shape and returns its
    /// fresh handle.
    pub fn register_stateless(&mut self, thunk: F) -> (h: u32)
        requires
            old(self).wf(),
            old(self).issued() < u32::MAX,
        ensures
            final(self).wf(),
            h == old(self).issued(),
            !old(self).live(h),
            final(self).issued() == old(self).issued() + 1,
            final(self).lower() == old(self).lower(),
            final(self).is_closure(h),
            final(self).closure_at(h).spec_shape() == Shape::Stateless,
            final(self).closure_at(h).spec_thunk() == thunk,
            forall|h2: u32| h2 != h ==> (final(self).live(h2) <==> old(self).live(h2)),
            forall|h2: u32|
                h2 != h && old(self).live(h2) ==> final(self).obj_at(h2) == old(self).obj_at(h2),
    {
        self.table.insert(Object::Closure(Closure::stateless(thunk)))
    }

    /// Registers a callback under the payload-taking shape and returns its
    /// fresh handle.
    pub fn register_stateful(&mut self, thunk: F) -> (h: u32)
        requires
            old(self).wf(),
            old(self).issued() < u32::MAX,
        ensures
            final(self).wf(),
            h == old(self).issued(),
            !old(self).live(h),
            final(self).issued() == old(self).issued() + 1,
            final(self).lower() == old(self).lower(),
            final(self).is_closure(h),
            final(self).closure_at(h).spec_shape() == Shape::Stateful,
            final(self).closure_at(h).spec_thunk() == thunk,
            forall|h2: u32| h2 != h ==> (final(self).live(h2) <==> old(self).live(h2)),
            forall|h2: u32|
                h2 != h && old(self).live(h2) ==> final(self).obj_at(h2) == old(self).obj_at(h2),
    {
        self.table.insert(Object::Closure(Closure::stateful(thunk)))
    }

    /// Invokes the closure under a handle through the no-payload shape.
    ///
    /// Not-found handles — dead, never issued, or denoting a node — are a
    /// `NotFound`; a stateful closure is a `ShapeMismatch`. On success the
    /// result is exactly the registered thunk's message for the empty
    /// payload.
    pub fn call(&self, h: u32) -> (r: Result<Vec<u8>, CallError>)
        requires
            self.wf(),
        ensures
            match r {
                Ok(m) => self.is_closure(h) && self.closure_at(h).spec_shape() == Shape::Stateless
                    && self.closure_at(h).spec_thunk().accepts(Seq::<u8>::empty()) && m@
                    == self.closure_at(h).spec_thunk().message(Seq::<u8>::empty()),
                Err(CallError::NotFound) => !self.is_closure(h),
                Err(CallError::ShapeMismatch) => self.is_closure(h) && self.closure_at(
                    h,
                ).spec_shape() == Shape::Stateful,
                Err(CallError::BadPayload) => self.is_closure(h) && self.closure_at(
                    h,
                ).spec_shape() == Shape::Stateless && !self.closure_at(h).spec_thunk().accepts(
                    Seq::<u8>::empty(),
                ),
            },
    {
        match self.table.get(h) {
            Some(Object::Closure(c)) => c.call(),
            _ => Err(CallError::NotFound),
        }
    }

    /// Invokes the closure under a handle through the payload-taking
    /// shape.
    ///
    /// Not-found handles are a `NotFound`; a stateless closure is always a
    /// `ShapeMismatch`, whatever the payload; a payload the thunk does not
    /// accept is a `BadPayload`. On success the result is exactly the
    /// registered thunk's message for this payload.
    pub fn call_with(&self, h: u32, payload: &Vec<u8>) -> (r: Result<Vec<u8>, CallError>)
        requires
            self.wf(),
        ensures
            match r {
                Ok(m) => self.is_closure(h) && self.closure_at(h).spec_shape() == Shape::Stateful
                    && self.closure_at(h).spec_thunk().accepts(payload@) && m@ == self.closure_at(
                    h,
                ).spec_thunk().message(payload@),
                Err(CallError::NotFound) => !self.is_closure(h),
                Err(CallError::ShapeMismatch) => self.is_closure(h) && self.closure_at(
                    h,
                ).spec_shape() == Shape::Stateless,
                Err(CallError::BadPayload) => self.is_closure(h) && self.closure_at(
                    h,
                ).spec_shape() == Shape::Stateful && !self.closure_at(h).spec_thunk().accepts(
                    payload@,
                ),
            },
    {
        match self.table.get(h) {
            Some(Object::Closure(c)) => c.call_with(payload),
            _ => Err(CallError::NotFound),
        }
    }
}

} // verus!
