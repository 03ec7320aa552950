use vstd::prelude::*;

use crate::artifact::{spec_validate, validate, ArtifactInfo};
use crate::closure::{Shape, Thunk};
use crate::context::Context;
use crate::error::{CallError, Error, ViewError};
use crate::guest::Message;
use crate::node::Node;

verus! {

/// A view program, as the runtime sees it: the behaviour a loaded
/// artifact exposes through its entrypoints.
///
/// `construct` turns opaque state bytes into the application value, and
/// `view` drives builder calls against the resource table to produce the
/// root of a node tree. Each implementation pins both down with its own
/// `decode_state` and `view_spec`.
pub trait Component: Sized {
    /// The callbacks this component registers during a view pass.
    type Thunk: Thunk;

    /// The application value the state bytes decode to, or `None` when
    /// they do not match the component's expected shape.
    spec fn decode_state(state: Seq<u8>) -> Option<Self>;

    /// An upper bound on how many handles one view pass allocates.
    spec fn view_handles() -> nat;

    /// What a view pass leaves behind: relates the application value, the
    /// context as the pass left it, and the root node it produced.
    spec fn view_spec(&self, cx: Context<Self::Thunk>, root: Node) -> bool;

    /// Deserializes the state bytes into the application value; fails the
    /// whole call when they do not match the expected shape.
    fn construct(state: &Vec<u8>) -> (r: Result<Self, ViewError>)
        ensures
            match r {
                Ok(app) => Self::decode_state(state@) == Some(app),
                Err(e) => Self::decode_state(state@) is None && e == ViewError::StateMismatch,
            },
    ;

    /// Drives builder calls against the resource table and hands back the
    /// finished root. Never resets the table: handles issued before the
    /// pass stay distinct from the pass's own.
    fn view(&self, cx: &mut Context<Self::Thunk>) -> (root: Node)
        requires
            old(cx).wf(),
            old(cx).issued() + Self::view_handles() <= u32::MAX,
        ensures
            final(cx).wf(),
            final(cx).lower() >= old(cx).lower(),
            final(cx).issued() >= old(cx).issued(),
            final(cx).issued() <= old(cx).issued() + Self::view_handles(),
            self.view_spec(*final(cx), root),
    ;
}

/// The reload controller's states. `Reloading` is transient inside
/// `reload` and never observable, so it is not listed.
#[derive(Clone, Copy, Debug, PartialEq, Eq, Structural)]
pub enum Status {
    /// No instance yet.
    Cold,
    /// An instance is loaded; its table may be populated.
    Warm,
    /// The last load failed and no earlier instance exists.
    Failed,
}

/// The component runtime: one loaded instance at a time, its resource
/// table, the most recently supplied state bytes, and the reload state
/// machine around them.
///
/// The context persists across reloads so that the handles of a replaced
/// instance stay dead forever; replacing the instance resets the table,
/// which invalidates every prior handle and closure at once while the
/// hosting widget keeps its own identity.
pub struct Runtime<C: Component> {
    status: Status,
    cx: Context<C::Thunk>,
    app: Option<C>,
    root: Option<Node>,
    state: Vec<u8>,
    invalidated: bool,
}

impl<C: Component> Runtime<C> {
    pub closed spec fn wf(&self) -> bool {
        &&& self.cx.wf()
        &&& (self.status != Status::Warm ==> self.app is None && self.root is None)
        &&& (self.root is Some ==> self.app is Some)
    }

    pub closed spec fn status(&self) -> Status {
        self.status
    }

    /// The instance's resource table and dispatch surface.
    pub closed spec fn ctx(&self) -> Context<C::Thunk> {
        self.cx
    }

    /// The application value of the last successful pass.
    pub closed spec fn app(&self) -> Option<C> {
        self.app
    }

    /// The root the last successful pass produced.
    pub closed spec fn spec_root(&self) -> Option<Node> {
        self.root
    }

    /// The most recently supplied state bytes.
    pub closed spec fn state_bytes(&self) -> Seq<u8> {
        self.state@
    }

    /// Whether the hosting widget still has to redraw after a reload.
    pub closed spec fn invalidated(&self) -> bool {
        self.invalidated
    }

    /// A runtime with no instance: the controller starts cold, holding
    /// the state bytes the host supplied.
    pub fn new(state: Vec<u8>) -> (r: Runtime<C>)
        ensures
            r.wf(),
            r.status() == Status::Cold,
            r.state_bytes() == state@,
            r.app() is None,
            r.spec_root() is None,
            !r.invalidated(),
            r.ctx().issued() == 0,
            r.ctx().lower() == 0,
            forall|h: u32| !r.ctx().live(h),
    {
        Runtime {
            status: Status::Cold,
            cx: Context::new(),
            app: None,
            root: None,
            state,
            invalidated: false,
        }
    }

    /// Supplies fresh state bytes; the tree is rebuilt on the next pass.
    pub fn set_state(&mut self, state: Vec<u8>)
        requires
            old(self).wf(),
        ensures
            final(self).wf(),
            final(self).state_bytes() == state@,
            final(self).status() == old(self).status(),
            final(self).ctx() == old(self).ctx(),
            final(self).app() == old(self).app(),
            final(self).spec_root() == old(self).spec_root(),
            final(self).invalidated() == old(self).invalidated(),
    {
        self.state = state;
    }

    /// One transactional view pass: drains the resource table — stale
    /// handles from the previous pass cannot leak into the new tree —
    /// then runs `construct` on the current state bytes and `view` on the
    /// result, and extracts the root.
    ///
    /// Succeeds exactly when the state bytes decode; on `StateMismatch`
    /// the old handles are invalidated all the same and no tree is left,
    /// so the host retains its last good tree and surfaces the error.
    pub fn view_pass(&mut self) -> (r: Result<(), ViewError>)
        requires
            old(self).wf(),
            old(self).status() == Status::Warm,
            old(self).ctx().issued() + C::view_handles() <= u32::MAX,
        ensures
            final(self).wf(),
            final(self).status() == Status::Warm,
            final(self).state_bytes() == old(self).state_bytes(),
            final(self).invalidated() == old(self).invalidated(),
            final(self).ctx().lower() >= old(self).ctx().issued(),
            final(self).ctx().issued() >= old(self).ctx().issued(),
            final(self).ctx().issued() <= old(self).ctx().issued() + C::view_handles(),
            forall|h: u32| old(self).ctx().live(h) ==> !final(self).ctx().live(h),
            match r {
                Ok(()) => {
                    &&& C::decode_state(old(self).state_bytes()) is Some
                    &&& final(self).app() == C::decode_state(old(self).state_bytes())
                    &&& (final(self).spec_root() matches Some(root) && final(self).app() matches
                        Some(app) && app.view_spec(final(self).ctx(), root))
                },
                Err(e) => {
                    &&& e == ViewError::StateMismatch
                    &&& C::decode_state(old(self).state_bytes()) is None
                    &&& final(self).app() is None
                    &&& final(self).spec_root() is None
                },
            },
    {
        self.cx.clear();
        self.app = None;
        self.root = None;
        proof {
            assert forall|h: u32| old(self).ctx().live(h) implies h < old(self).ctx().issued() by {
                old(self).cx.table.lemma_valid_bounds(h);
            }
        }
        let app = match C::construct(&self.state) {
            Ok(app) => app,
            Err(e) => {
                return Err(e);
            },
        };
        let root = app.view(&mut self.cx);
        proof {
            assert forall|h: u32| old(self).ctx().live(h) implies !self.ctx().live(h) by {
                if self.ctx().live(h) {
                    self.cx.table.lemma_valid_bounds(h);
                }
            }
        }
        self.app = Some(app);
        self.root = Some(root);
        Ok(())
    }

    /// The reload transition: validate the new artifact, and on success
    /// atomically replace the instance — resetting the resource table,
    /// which invalidates every prior handle and closure — mark the
    /// hosting widget for redraw, and re-run `construct` and `view` with
    /// the most recently supplied state bytes.
    ///
    /// On a failed load the previous warm instance stays live, untouched,
    /// and the error is surfaced for display; with no warm instance to
    /// fall back to, the controller enters `Failed`. `Failed` is not
    /// terminal: a later successful reload leaves it.
    pub fn reload(&mut self, artifact: &Option<ArtifactInfo>) -> (r: Result<(), Error>)
        requires
            old(self).wf(),
            old(self).ctx().issued() + C::view_handles() <= u32::MAX,
        ensures
            final(self).wf(),
            final(self).state_bytes() == old(self).state_bytes(),
            final(self).ctx().issued() >= old(self).ctx().issued(),
            final(self).ctx().issued() <= old(self).ctx().issued() + C::view_handles(),
            match r {
                Ok(()) => {
                    &&& spec_validate(*artifact) is Ok
                    &&& C::decode_state(old(self).state_bytes()) is Some
                    &&& final(self).status() == Status::Warm
                    &&& final(self).app() == C::decode_state(old(self).state_bytes())
                    &&& (final(self).spec_root() matches Some(root) && final(self).app() matches
                        Some(app) && app.view_spec(final(self).ctx(), root))
                    &&& final(self).invalidated()
                    &&& final(self).ctx().lower() >= old(self).ctx().issued()
                    &&& forall|h: u32| old(self).ctx().live(h) ==> !final(self).ctx().live(h)
                },
                Err(Error::Load(e)) => {
                    &&& spec_validate(*artifact) == Err::<(), crate::error::LoadError>(e)
                    &&& (old(self).status() == Status::Warm ==> *final(self) == *old(self))
                    &&& (old(self).status() != Status::Warm ==> {
                        &&& final(self).status() == Status::Failed
                        &&& final(self).ctx() == old(self).ctx()
                        &&& final(self).app() is None
                        &&& final(self).spec_root() is None
                        &&& final(self).invalidated() == old(self).invalidated()
                    })
                },
                Err(Error::View(e)) => {
                    &&& spec_validate(*artifact) is Ok
                    &&& e == ViewError::StateMismatch
                    &&& C::decode_state(old(self).state_bytes()) is None
                    &&& final(self).status() == Status::Warm
                    &&& final(self).app() is None
                    &&& final(self).spec_root() is None
                    &&& final(self).invalidated()
                    &&& final(self).ctx().lower() >= old(self).ctx().issued()
                    &&& forall|h: u32| old(self).ctx().live(h) ==> !final(self).ctx().live(h)
                },
                Err(Error::Call(_)) => false,
                Err(Error::Resource(_)) => false,
            },
    {
        match validate(artifact) {
            Err(e) => {
                if self.status == Status::Warm {
                    return Err(Error::Load(e));
                }
                self.status = Status::Failed;
                self.app = None;
                self.root = None;
                Err(Error::Load(e))
            },
            Ok(()) => {
                self.status = Status::Warm;
                self.invalidated = true;
                match self.view_pass() {
                    Ok(()) => Ok(()),
                    Err(e) => Err(Error::View(e)),
                }
            },
        }
    }

    /// Routes a host-raised event back into the closure dispatcher: the
    /// stateless shape when the message carries no payload, the stateful
    /// one when it does.
    ///
    /// A runtime that is not warm routes nothing — a torn-down instance's
    /// closures are never silently reached — and reports `NotFound`.
    pub fn call(&self, message: &Message) -> (r: Result<Vec<u8>, CallError>)
        requires
            self.wf(),
        ensures
            self.status() != Status::Warm ==> r == Err::<Vec<u8>, CallError>(CallError::NotFound),
            self.status() == Status::Warm ==> (message.data is None ==> (match r {
                Ok(m) => {
                    &&& self.ctx().is_closure(message.closure)
                    &&& self.ctx().closure_at(message.closure).spec_shape() == Shape::Stateless
                    &&& self.ctx().closure_at(message.closure).spec_thunk().accepts(
                        Seq::<u8>::empty(),
                    )
                    &&& m@ == self.ctx().closure_at(message.closure).spec_thunk().message(
                        Seq::<u8>::empty(),
                    )
                },
                Err(CallError::NotFound) => !self.ctx().is_closure(message.closure),
                Err(CallError::ShapeMismatch) => self.ctx().is_closure(message.closure)
                    && self.ctx().closure_at(message.closure).spec_shape() == Shape::Stateful,
                Err(CallError::BadPayload) => self.ctx().is_closure(message.closure) && self.ctx()
                    .closure_at(message.closure).spec_shape() == Shape::Stateless && !self.ctx()
                    .closure_at(message.closure).spec_thunk().accepts(Seq::<u8>::empty()),
            })),
            self.status() == Status::Warm ==> (message.data matches Some(p) ==> (match r {
                Ok(m) => {
                    &&& self.ctx().is_closure(message.closure)
                    &&& self.ctx().closure_at(message.closure).spec_shape() == Shape::Stateful
                    &&& self.ctx().closure_at(message.closure).spec_thunk().accepts(p@)
                    &&& m@ == self.ctx().closure_at(message.closure).spec_thunk().message(p@)
                },
                Err(CallError::NotFound) => !self.ctx().is_closure(message.closure),
                Err(CallError::ShapeMismatch) => self.ctx().is_closure(message.closure)
                    && self.ctx().closure_at(message.closure).spec_shape() == Shape::Stateless,
                Err(CallError::BadPayload) => self.ctx().is_closure(message.closure) && self.ctx()
                    .closure_at(message.closure).spec_shape() == Shape::Stateful && !self.ctx()
                    .closure_at(message.closure).spec_thunk().accepts(p@),
            })),
    {
        if self.status == Status::Warm {
            match &message.data {
                None => self.cx.call(message.closure),
                Some(payload) => self.cx.call_with(message.closure, payload),
            }
        } else {
            Err(CallError::NotFound)
        }
    }

    /// The root of the last successful pass, for the host to render;
    /// `None` while cold, failed, or after a pass that rejected the state
    /// bytes.
    pub fn root(&self) -> (r: &Option<Node>)
        ensures
            *r == self.spec_root(),
    {
        &self.root
    }

    pub fn status_now(&self) -> (s: Status)
        ensures
            s == self.status(),
    {
        self.status
    }


    /// How many handles the instance's table has issued, for the host to
    /// check against the component's handle budget before a pass.
    pub fn handles_issued(&self) -> (n: u64)
        requires
            self.wf(),
        ensures
            n == self.ctx().issued(),
    {
        self.cx.issued_count()
    }

    /// Takes the redraw flag: true once after each reload.
    pub fn take_invalidated(&mut self) -> (b: bool)
        requires
            old(self).wf(),
        ensures
            final(self).wf(),
            b == old(self).invalidated(),
            !final(self).invalidated(),
            final(self).status() == old(self).status(),
            final(self).ctx() == old(self).ctx(),
            final(self).app() == old(self).app(),
            final(self).spec_root() == old(self).spec_root(),
            final(self).state_bytes() == old(self).state_bytes(),
    {
        let b = self.invalidated;
        self.invalidated = false;
        b
    }
}

/// Reload invalidation: a handle that was live before a reload is dead in
/// the new instance and in every instance after it.
///
/// A reload leaves the table's lower bound at or above everything issued
/// before it, every live handle lies between the lower bound and the
/// issue count, and no operation ever lowers the bound; so a handle from
/// before the reload can never be live again. `pre` is the runtime any
/// time before the reload and `post` any time after it.
pub proof fn lemma_reload_invalidation<C: Component>(pre: Runtime<C>, post: Runtime<C>, h: u32)
    requires
        pre.ctx().live(h),
        post.ctx().lower() >= pre.ctx().issued(),
    ensures
        !post.ctx().live(h),
{
    pre.ctx().lemma_live_bounds(h);
    if post.ctx().live(h) {
        post.ctx().lemma_live_bounds(h);
    }
}

} // verus!
