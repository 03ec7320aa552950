use vstd::prelude::*;

verus! {

/// The host-owned resource table: a mapping from small integer handles to
/// host-side objects. Every guest-observable object is such a handle; the
/// guest never sees the real host object.
///
/// Handles are issued in strictly increasing order and are never reused,
/// not even across a [`Table::clear`]: the table keeps a lower bound
/// (`base`) below which every handle is permanently dead. This makes the
/// central invariants structural: handles are pairwise distinct within a
/// lifetime, a taken handle stays dead, and clearing the table on reload
/// invalidates every prior handle for good.
pub struct Table<T> {
    base: u32,
    slots: Vec<Option<T>>,
}

impl<T> Table<T> {
    /// The table never issues more handles than fit in a `u32`.
    pub closed spec fn wf(&self) -> bool {
        self.base + self.slots@.len() <= u32::MAX
    }

    /// How many handles have been issued over the table's whole lifetime;
    /// the next `insert` returns exactly this number.
    pub closed spec fn issued(&self) -> int {
        self.base + self.slots@.len()
    }

    /// Handles below this bound are permanently dead: they were invalidated
    /// wholesale by a [`Table::clear`].
    pub closed spec fn lower(&self) -> int {
        self.base as int
    }

    /// A handle is valid iff it was produced by `insert` since the last
    /// `clear` and has not been taken or dropped since.
    pub closed spec fn valid(&self, h: u32) -> bool {
        &&& self.base <= h
        &&& h - self.base < self.slots@.len()
        &&& self.slots@[h - self.base] is Some
    }

    /// The object stored under a valid handle.
    pub closed spec fn at(&self, h: u32) -> T
        recommends
            self.valid(h),
    {
        self.slots@[h - self.base]->0
    }

    /// A valid handle always lies in the issued window.
    pub proof fn lemma_valid_bounds(&self, h: u32)
        requires
            self.valid(h),
        ensures
            self.lower() <= h < self.issued(),
    {
    }

    pub fn new() -> (r: Table<T>)
        ensures
            r.wf(),
            r.issued() == 0,
            r.lower() == 0,
            forall|h: u32| !r.valid(h),
    {
        Table { base: 0, slots: Vec::new() }
    }


    /// How many handles this table has issued, as a number the host can
    /// read; `insert` needs this to stay below `u32::MAX`.
    pub fn issued_count(&self) -> (n: u64)
        requires
            self.wf(),
        ensures
            n == self.issued(),
    {
        (self.base as u64) + (self.slots.len() as u64)
    }

    /// Allocates the next unused handle and stores the object under it.
    ///
    /// The returned handle equals the current issue count, so it differs
    /// from every handle this table has ever returned before.
    pub fn insert(&mut self, value: T) -> (h: u32)
        requires
            old(self).wf(),
            old(self).issued() < u32::MAX,
        ensures
            final(self).wf(),
            h == old(self).issued(),
            !old(self).valid(h),
            final(self).valid(h),
            final(self).at(h) == value,
            final(self).issued() == old(self).issued() + 1,
            final(self).lower() == old(self).lower(),
            forall|h2: u32| h2 != h ==> (final(self).valid(h2) <==> old(self).valid(h2)),
            forall|h2: u32| h2 != h && old(self).valid(h2) ==> final(self).at(h2) == old(self).at(h2),
    {
        let h = self.base + (self.slots.len() as u32);
        self.slots.push(Some(value));
        h
    }

    /// Borrows the object under a handle; `None` iff the handle is not
    /// valid (surfaced by callers as `ResourceError::NotFound`).
    pub fn get(&self, h: u32) -> (r: Option<&T>)
        requires
            self.wf(),
        ensures
            match r {
                Some(v) => self.valid(h) && *v == self.at(h),
                None => !self.valid(h),
            },
    {
        if h >= self.base && ((h - self.base) as usize) < self.slots.len() {
            match &self.slots[(h - self.base) as usize] {
                Some(v) => Some(v),
                None => None,
            }
        } else {
            None
        }
    }

    /// Removes the object under a handle and returns ownership; the handle
    /// is dead afterwards. `None` iff the handle is not valid.
    pub fn take(&mut self, h: u32) -> (r: Option<T>)
        requires
            old(self).wf(),
        ensures
            final(self).wf(),
            final(self).issued() == old(self).issued(),
            final(self).lower() == old(self).lower(),
            match r {
                Some(v) => old(self).valid(h) && v == old(self).at(h),
                None => !old(self).valid(h),
            },
            !final(self).valid(h),
            forall|h2: u32| h2 != h ==> (final(self).valid(h2) <==> old(self).valid(h2)),
            forall|h2: u32| h2 != h && old(self).valid(h2) ==> final(self).at(h2) == old(self).at(h2),
    {
        if h >= self.base && ((h - self.base) as usize) < self.slots.len() {
            let slot = vstd::std_specs::vec::vec_index_mut(
                &mut self.slots,
                (h - self.base) as usize,
            );
            slot.take()
        } else {
            None
        }
    }

    /// Stores an object back under a handle that was issued earlier.
    /// Builder calls use this to update a node in place, keeping its
    /// handle stable for chaining.
    pub(crate) fn put(&mut self, h: u32, value: T)
        requires
            old(self).wf(),
            old(self).lower() <= h < old(self).issued(),
        ensures
            final(self).wf(),
            final(self).issued() == old(self).issued(),
            final(self).lower() == old(self).lower(),
            final(self).valid(h),
            final(self).at(h) == value,
            forall|h2: u32| h2 != h ==> (final(self).valid(h2) <==> old(self).valid(h2)),
            forall|h2: u32| h2 != h && old(self).valid(h2) ==> final(self).at(h2) == old(self).at(h2),
    {
        self.slots.set((h - self.base) as usize, Some(value));
    }

    /// Explicit release of a handle; a double drop is a no-op, not an
    /// error.
    pub fn drop_handle(&mut self, h: u32)
        requires
            old(self).wf(),
        ensures
            final(self).wf(),
            final(self).issued() == old(self).issued(),
            final(self).lower() == old(self).lower(),
            !final(self).valid(h),
            forall|h2: u32| h2 != h ==> (final(self).valid(h2) <==> old(self).valid(h2)),
            forall|h2: u32| h2 != h && old(self).valid(h2) ==> final(self).at(h2) == old(self).at(h2),
    {
        if h >= self.base && ((h - self.base) as usize) < self.slots.len() {
            self.slots.set((h - self.base) as usize, None);
        }
    }

    /// Invalidates every handle at once, without disturbing the issue
    /// count: handles issued after the clear are still distinct from all
    /// handles issued before it. This is the reload boundary.
    pub fn clear(&mut self)
        requires
            old(self).wf(),
        ensures
            final(self).wf(),
            final(self).issued() == old(self).issued(),
            final(self).lower() == old(self).issued(),
            forall|h: u32| !final(self).valid(h),
    {
        self.base = self.base + (self.slots.len() as u32);
        self.slots = Vec::new();
    }
}

/// Handle uniqueness: within one table lifetime, any two `insert` calls
/// return distinct handles.
///
/// An `insert` returns the table's issue count and raises it by one, and no
/// operation ever lowers it; so when a second `insert` happens any time
/// after a first one, the two returned handles differ. `t0` is the table
/// just before the first insert, `t1` just after it, and `t2` the table
/// just before the second insert, after any number of further operations.
pub proof fn lemma_insert_handles_distinct<T>(
    t0: Table<T>,
    t1: Table<T>,
    t2: Table<T>,
    h1: u32,
    h2: u32,
)
    requires
        h1 == t0.issued(),
        t1.issued() == t0.issued() + 1,
        t2.issued() >= t1.issued(),
        h2 == t2.issued(),
    ensures
        h1 != h2,
{
}

/// Take-once: after `take(h)` succeeds, no later operation revives `h`, so
/// every subsequent `get(h)` or `take(h)` reports the handle as not found.
///
/// `get`, `take` and `drop_handle` never make an invalid handle valid
/// again (their contracts say so directly); the one subtle case is a later
/// `insert`, covered here: the fresh handle it picks is the issue count,
/// which lies strictly above every handle issued earlier, so it cannot
/// collide with `h`. `t0` is the table just after the successful take, and
/// `t1` the table after a later insert returned `h_new`.
pub proof fn lemma_take_once<T>(t0: Table<T>, t1: Table<T>, h: u32, h_new: u32)
    requires
        h < t0.issued(),
        !t0.valid(h),
        h_new == t0.issued(),
        t1.issued() == t0.issued() + 1,
        forall|x: u32| x != h_new ==> (t1.valid(x) <==> t0.valid(x)),
    ensures
        !t1.valid(h),
{
}

} // verus!
