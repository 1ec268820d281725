//! The simulation engine: the ping-pong pair and its role index.
//!
//! Two equally sized state containers hold consecutive generations.  A
//! step always reads the whole prior snapshot from one container and
//! writes the next generation into the other, then flips the role
//! index; the roles never change in the middle of a step.  The two
//! possible (read, write) binding descriptors are built once at
//! construction and selected by the role index, never rebuilt.
//!
//! Role convention: `current` is the container that holds the newest
//! generation — the write target of the last completed step, or the
//! seed before any step.  A step reads `current`, writes `1 - current`,
//! and then toggles, so `current` keeps naming the newest snapshot.
//! The display pass always samples `current`: the container most
//! recently finished writing, rebound each frame by selecting from the
//! precomputed pair at the toggled role index.

use vstd::prelude::*;
use crate::grid::Grid;
use crate::grid::stepped;

verus! {

/// One precomputed binding descriptor: the container a dispatch reads
/// and the container it writes.
#[derive(Clone, Copy, PartialEq, Eq, Structural, Debug)]
pub struct Binding {
    pub read_slot: u32,
    pub write_slot: u32,
}

/// The double-buffered simulation engine.
pub struct Engine {
    pub slot0: Grid,
    pub slot1: Grid,
    pub binding0: Binding,
    pub binding1: Binding,
    pub current: u32,
}

impl Engine {
    /// The container at role `i`.
    pub open spec fn slot(self, i: int) -> Grid {
        if i == 0 {
            self.slot0
        } else {
            self.slot1
        }
    }

    /// The grid width shared by both containers.
    pub open spec fn spec_width(self) -> u32 {
        self.slot0.width
    }

    /// The grid height shared by both containers.
    pub open spec fn spec_height(self) -> u32 {
        self.slot0.height
    }

    /// Both containers well formed and of equal size, the role index a
    /// single bit, and the binding pair exactly the two possible role
    /// assignments.
    pub open spec fn wf(self) -> bool {
        &&& self.slot0.wf()
        &&& self.slot1.wf()
        &&& self.slot1.width == self.slot0.width
        &&& self.slot1.height == self.slot0.height
        &&& self.current <= 1
        &&& self.binding0 == (Binding { read_slot: 0u32, write_slot: 1u32 })
        &&& self.binding1 == (Binding { read_slot: 1u32, write_slot: 0u32 })
    }

    /// Role the next step reads: the newest generation.
    pub open spec fn read_role(self) -> int {
        self.current as int
    }

    /// Role the next step writes.
    pub open spec fn write_role(self) -> int {
        1 - self.current as int
    }

    /// Role the display pass samples: the container most recently
    /// finished writing — the last step's write target, or the seed
    /// before any step.
    pub open spec fn display_role(self) -> int {
        self.current as int
    }

    /// Builds the pair from a seed grid.  The seed becomes the newest
    /// generation at role 0; the other container starts cleared.
    pub fn new(initial: Grid) -> (e: Engine)
        requires
            initial.wf(),
        ensures
            e.wf(),
            e.slot0 == initial,
            e.current == 0,
            e.spec_width() == initial.width,
            e.spec_height() == initial.height,
            forall|i: int| 0 <= i < e.slot1.cells@.len() ==> !e.slot1.cells@[i],
    {
        let width = initial.width;
        let height = initial.height;
        Engine {
            slot0: initial,
            slot1: Grid::dead(width, height),
            binding0: Binding { read_slot: 0, write_slot: 1 },
            binding1: Binding { read_slot: 1, write_slot: 0 },
            current: 0,
        }
    }

    /// Selects the precomputed binding descriptor for a role index.
    pub fn binding(&self, role: u32) -> (b: Binding)
        requires
            self.wf(),
            role <= 1,
        ensures
            b.read_slot == role,
            b.write_slot == 1 - role,
    {
        if role == 0 {
            self.binding0
        } else {
            self.binding1
        }
    }

    /// The role index as of the last completed step.
    pub fn current_role(&self) -> (r: u32)
        ensures
            r == self.current,
    {
        self.current
    }

    /// Read-only access to the container most recently finished
    /// writing: what the display pass samples.
    pub fn current_state(&self) -> (g: &Grid)
        requires
            self.wf(),
        ensures
            *g == self.slot(self.display_role()),
    {
        if self.current == 0 {
            &self.slot0
        } else {
            &self.slot1
        }
    }

    /// Advances the pair by one generation: reads the container at the
    /// current role, writes the transition of that whole snapshot into
    /// the other container, and toggles the role index once.
    pub fn step(&mut self)
        requires
            old(self).wf(),
        ensures
            final(self).wf(),
            step_transition(*old(self), *final(self)),
    {
        let b = self.binding(self.current);
        let next = if b.read_slot == 0 {
            self.slot0.next_generation()
        } else {
            self.slot1.next_generation()
        };
        if b.write_slot == 0 {
            self.slot0 = next;
        } else {
            self.slot1 = next;
        }
        self.current = 1 - self.current;
    }
}

/// What one `step` does: the read container is untouched, the written
/// container becomes the transition of the read snapshot, the binding
/// pair is unchanged, and the role index toggles exactly once.
pub open spec fn step_transition(pre: Engine, post: Engine) -> bool {
    &&& post.current == 1 - pre.current
    &&& post.slot(pre.read_role()) == pre.slot(pre.read_role())
    &&& post.slot(pre.write_role()).width == pre.spec_width()
    &&& post.slot(pre.write_role()).height == pre.spec_height()
    &&& post.slot(pre.write_role()).cells@ == stepped(
        pre.slot(pre.read_role()).cells@,
        pre.spec_width() as int,
        pre.spec_height() as int,
    )
    &&& post.binding0 == pre.binding0
    &&& post.binding1 == pre.binding1
}

/// Role toggling over two steps: the write-role index returns to its
/// original value and the display source returns to the container it
/// started at.  After each step the display source is the container
/// that very step wrote — the first step's write target after one
/// step, the second step's after two — and after the two steps it
/// holds the transition rule applied twice to the starting snapshot.
pub proof fn lemma_double_step_roles(e0: Engine, e1: Engine, e2: Engine)
    requires
        e0.wf(),
        step_transition(e0, e1),
        step_transition(e1, e2),
    ensures
        e2.current == e0.current,
        e1.display_role() == e0.write_role(),
        e2.display_role() == e1.write_role(),
        e2.display_role() == e0.display_role(),
        e2.slot(e2.display_role()).cells@ == stepped(
            stepped(
                e0.slot(e0.read_role()).cells@,
                e0.spec_width() as int,
                e0.spec_height() as int,
            ),
            e0.spec_width() as int,
            e0.spec_height() as int,
        ),
{
}

} // verus!
