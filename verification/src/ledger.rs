//! A ledger of GPU resource handles.
//!
//! The native API tracks no lifetimes: every created object must be
//! destroyed exactly once, in reverse creation order, by the application.
//! The ledger records each creation and each release; releasing demands a
//! live entry, so verified code cannot double-free, and the teardown log
//! makes the release order checkable.

use vstd::prelude::*;

verus! {

/// The kinds of GPU objects the renderer owns.
#[derive(Clone, Copy, Debug, PartialEq, Eq, Structural)]
pub enum ResourceKind {
    Instance,
    Surface,
    Device,
    Swapchain,
    Fence,
    Semaphore,
    RenderPass,
    ImageView,
    Framebuffer,
    CommandPool,
    CommandBuffer,
    DescriptorSetLayout,
    PipelineLayout,
    GraphicsPipeline,
    ShaderModule,
    Buffer,
    Memory,
}

/// One created object: its kind, and whether it is still live (not yet
/// destroyed).
#[derive(Clone, Copy, Debug, PartialEq, Eq, Structural)]
pub struct LedgerEntry {
    pub kind: ResourceKind,
    pub alive: bool,
}

/// The ledger itself. Entry indices are handles: an object's id is its
/// position in creation order. `teardown` logs the ids in release order.
pub struct Ledger {
    pub entries: Vec<LedgerEntry>,
    pub teardown: Vec<usize>,
}

impl Ledger {
    /// Whether `id` names a created and not yet destroyed object.
    pub open spec fn spec_alive(self, id: int) -> bool {
        0 <= id < self.entries@.len() && self.entries@[id].alive
    }

    /// The ids of the live entries of `s` at positions `i` and above, largest
    /// first: the reverse of their creation order.
    pub open spec fn rev_live_from(s: Seq<LedgerEntry>, i: int) -> Seq<usize>
        decreases s.len() - i,
    {
        if i < 0 || i >= s.len() {
            Seq::empty()
        } else if s[i].alive {
            Self::rev_live_from(s, i + 1) + seq![i as usize]
        } else {
            Self::rev_live_from(s, i + 1)
        }
    }

    /// An empty ledger: nothing created, nothing released.
    pub fn new() -> (r: Ledger)
        ensures
            r.entries@ == Seq::<LedgerEntry>::empty(),
            r.teardown@ == Seq::<usize>::empty(),
    {
        Ledger { entries: Vec::new(), teardown: Vec::new() }
    }

    /// Record a creation; the fresh id is the next position.
    pub fn register(&mut self, kind: ResourceKind) -> (id: usize)
        ensures
            id == old(self).entries@.len(),
            final(self).entries@ == old(self).entries@.push(LedgerEntry { kind, alive: true }),
            final(self).teardown@ == old(self).teardown@,
    {
        let id = self.entries.len();
        self.entries.push(LedgerEntry { kind, alive: true });
        id
    }

    /// Record a destruction. Only a live entry can be released: a second
    /// release of the same id is ruled out statically.
    pub fn release(&mut self, id: usize)
        requires
            old(self).spec_alive(id as int),
        ensures
            final(self).entries@ == old(self).entries@.update(
                id as int,
                LedgerEntry { kind: old(self).entries@[id as int].kind, alive: false },
            ),
            final(self).teardown@ == old(self).teardown@.push(id),
    {
        let kind = self.entries[id].kind;
        self.entries.set(id, LedgerEntry { kind, alive: false });
        self.teardown.push(id);
    }

    /// How many objects have been created so far.
    pub fn len(&self) -> (r: usize)
        ensures
            r == self.entries@.len(),
    {
        self.entries.len()
    }

    /// Whether `id` is live.
    pub fn is_alive(&self, id: usize) -> (r: bool)
        requires
            id < self.entries@.len(),
        ensures
            r == self.entries@[id as int].alive,
    {
        self.entries[id].alive
    }

    /// The kind `id` was created with.
    pub fn kind_of(&self, id: usize) -> (r: ResourceKind)
        requires
            id < self.entries@.len(),
        ensures
            r == self.entries@[id as int].kind,
    {
        self.entries[id].kind
    }

    /// How many releases have been logged.
    pub fn teardown_len(&self) -> (r: usize)
        ensures
            r == self.teardown@.len(),
    {
        self.teardown.len()
    }

    /// The id released at position `i` of the log.
    pub fn teardown_at(&self, i: usize) -> (r: usize)
        requires
            i < self.teardown@.len(),
        ensures
            r == self.teardown@[i as int],
    {
        self.teardown[i]
    }

    /// Release every live entry, in reverse creation order: each live id is
    /// logged exactly once, largest first, and afterwards nothing is live.
    pub fn release_all(&mut self)
        ensures
            final(self).entries@.len() == old(self).entries@.len(),
            forall|j: int|
                0 <= j < old(self).entries@.len() ==> final(self).entries@[j] == (LedgerEntry {
                    kind: old(self).entries@[j].kind,
                    alive: false,
                }),
            final(self).teardown@ == old(self).teardown@ + Self::rev_live_from(
                old(self).entries@,
                0,
            ),
    {
        let ghost orig = self.entries@;
        let ghost orig_log = self.teardown@;
        let mut i: usize = self.entries.len();
        while i > 0
            invariant
                i <= orig.len(),
                self.entries@.len() == orig.len(),
                forall|j: int| 0 <= j < i ==> self.entries@[j] == orig[j],
                forall|j: int|
                    i <= j < orig.len() ==> self.entries@[j] == (LedgerEntry {
                        kind: orig[j].kind,
                        alive: false,
                    }),
                self.teardown@ == orig_log + Self::rev_live_from(orig, i as int),
            decreases i,
        {
            i = i - 1;
            if self.entries[i].alive {
                self.release(i);
            }
            proof {
                assert(self.teardown@ =~= orig_log + Self::rev_live_from(orig, i as int));
            }
        }
        proof {
            assert(self.teardown@ =~= old(self).teardown@ + Self::rev_live_from(orig, 0));
        }
    }
}

} // verus!
