//! The frame orchestrator: one redraw opportunity at a time.
//!
//! The orchestrator owns the simulation engine and the surface
//! configuration state, and decides what each redraw opportunity does.
//! The device, surface and window are external collaborators: the front
//! end asks for a plan, performs the acquire, and reports the outcome;
//! the orchestrator then either advances the simulation and hands back
//! the one batch of work to record and submit, or skips the frame.
//! Every plan, worked or skipped, ends with the front end requesting
//! the next redraw opportunity.

use vstd::prelude::*;
use crate::dispatch::WORKGROUP_SIZE;
use crate::dispatch::div_ceil;
use crate::dispatch::workgroup_count;
use crate::engine::Engine;
use crate::engine::step_transition;

verus! {

/// Largest accepted surface side: notified sizes are clamped to it.
pub const SURFACE_MAX: u32 = 2048;

/// Whether the surface has a valid configuration.
#[derive(Clone, Copy, PartialEq, Eq, Structural, Debug)]
pub enum ConfigState {
    /// No valid surface size yet: frames are skipped.
    Unconfigured,
    /// The surface is configured at the recorded size.
    Ready { width: u32, height: u32 },
}

/// What a redraw opportunity asks of the front end.
#[derive(Clone, Copy, PartialEq, Eq, Structural, Debug)]
pub enum FramePlan {
    /// No valid configuration: do nothing but request the next redraw.
    Skip,
    /// Acquire the next presentable target and report the outcome.
    Acquire,
}

/// Outcome of acquiring a presentable target, reported by the front
/// end.
#[derive(Clone, Copy, PartialEq, Eq, Structural, Debug)]
pub enum AcquireOutcome {
    /// A target was acquired; the frame's work can be recorded.
    Acquired,
    /// The target was lost or outdated: reconfigure, skip the frame.
    Recoverable,
    /// Any other acquisition failure: report it, skip the frame.
    Fatal,
}

/// What the front end must do after reporting an acquire outcome.
#[derive(Clone, Copy, PartialEq, Eq, Structural, Debug)]
pub enum FrameWork {
    /// Record one batch: a compute dispatch of the given extents using
    /// the binding for `read_slot`/`write_slot`, then a render pass
    /// sampling `display_slot` — the container the dispatch writes
    /// earlier in the same batch, ordered by the batch itself; submit
    /// the batch and present.
    Submit {
        workgroups_x: u32,
        workgroups_y: u32,
        read_slot: u32,
        write_slot: u32,
        display_slot: u32,
    },
    /// Reconfigure the surface; nothing is dispatched or presented.
    Reconfigure,
    /// Report the failure; nothing is dispatched or presented.
    Report,
}

/// A notified side clamped to the accepted maximum.
pub open spec fn clamped_side(v: u32) -> u32 {
    if v <= SURFACE_MAX {
        v
    } else {
        SURFACE_MAX
    }
}

/// The frame orchestrator: the engine plus the surface configuration.
pub struct Orchestrator {
    pub config: ConfigState,
    pub engine: Engine,
}

/// What a resize notification does: the simulation is untouched, and
/// the configuration becomes `Ready` at the clamped size exactly when
/// the notified area is nonzero, `Unconfigured` otherwise.
pub open spec fn resize_transition(
    pre: Orchestrator,
    width: u32,
    height: u32,
    post: Orchestrator,
) -> bool {
    &&& post.engine == pre.engine
    &&& if width > 0 && height > 0 {
        post.config == (ConfigState::Ready {
            width: clamped_side(width),
            height: clamped_side(height),
        })
    } else {
        post.config == ConfigState::Unconfigured
    }
}

/// The plan a state yields: acquire exactly when configured.
pub open spec fn plan_of(o: Orchestrator) -> FramePlan {
    if o.config is Ready {
        FramePlan::Acquire
    } else {
        FramePlan::Skip
    }
}

impl Orchestrator {
    /// The engine well formed and any configured size in range.
    pub open spec fn wf(self) -> bool {
        &&& self.engine.wf()
        &&& match self.config {
            ConfigState::Unconfigured => true,
            ConfigState::Ready { width, height } => 1 <= width <= SURFACE_MAX && 1 <= height
                <= SURFACE_MAX,
        }
    }

    /// Starts unconfigured around a freshly built engine.
    pub fn new(engine: Engine) -> (o: Orchestrator)
        requires
            engine.wf(),
        ensures
            o.wf(),
            o.config == ConfigState::Unconfigured,
            o.engine == engine,
    {
        Orchestrator { config: ConfigState::Unconfigured, engine }
    }

    /// Whether the surface currently has a valid configuration.
    pub fn is_configured(&self) -> (b: bool)
        ensures
            b == (self.config is Ready),
    {
        match self.config {
            ConfigState::Ready { .. } => true,
            ConfigState::Unconfigured => false,
        }
    }

    /// A resize notification.  A nonzero area is clamped and makes the
    /// surface ready; a zero area leaves it unconfigured.  The
    /// simulation state and role index are untouched either way.
    pub fn resize(&mut self, width: u32, height: u32)
        requires
            old(self).wf(),
        ensures
            final(self).wf(),
            resize_transition(*old(self), width, height, *final(self)),
    {
        if width > 0 && height > 0 {
            let w = if width <= SURFACE_MAX {
                width
            } else {
                SURFACE_MAX
            };
            let h = if height <= SURFACE_MAX {
                height
            } else {
                SURFACE_MAX
            };
            self.config = ConfigState::Ready { width: w, height: h };
        } else {
            self.config = ConfigState::Unconfigured;
        }
    }

    /// What this redraw opportunity should do.
    pub fn plan_frame(&self) -> (p: FramePlan)
        ensures
            p == plan_of(*self),
    {
        if self.is_configured() {
            FramePlan::Acquire
        } else {
            FramePlan::Skip
        }
    }

    /// Finishes a planned frame once the front end reports the acquire
    /// outcome.  On success the engine advances one generation and the
    /// result is the single batch to record, submit and present; on a
    /// recoverable surface condition the frame is skipped and the
    /// surface must be reconfigured; on any other failure the frame is
    /// skipped and the failure reported.  A skipped frame leaves the
    /// simulation state and role index unchanged.
    pub fn complete_frame(&mut self, outcome: AcquireOutcome) -> (w: FrameWork)
        requires
            old(self).wf(),
            old(self).config is Ready,
        ensures
            final(self).wf(),
            w is Submit <==> outcome == AcquireOutcome::Acquired,
            w is Reconfigure <==> outcome == AcquireOutcome::Recoverable,
            w is Report <==> outcome == AcquireOutcome::Fatal,
            outcome == AcquireOutcome::Acquired ==> step_transition(
                old(self).engine,
                final(self).engine,
            ) && final(self).config == old(self).config,
            outcome == AcquireOutcome::Recoverable ==> final(self).engine == old(self).engine
                && final(self).config == ConfigState::Unconfigured,
            outcome == AcquireOutcome::Fatal ==> *final(self) == *old(self),
            w matches (FrameWork::Submit {
                workgroups_x,
                workgroups_y,
                read_slot,
                write_slot,
                display_slot,
            }) ==> workgroups_x == div_ceil(
                old(self).engine.spec_width() as int,
                WORKGROUP_SIZE as int,
            ) && workgroups_y == div_ceil(
                old(self).engine.spec_height() as int,
                WORKGROUP_SIZE as int,
            ) && read_slot == old(self).engine.read_role() && write_slot == old(
                self,
            ).engine.write_role() && display_slot == final(self).engine.display_role(),
    {
        match outcome {
            AcquireOutcome::Acquired => {
                let width = self.engine.slot0.width;
                let height = self.engine.slot0.height;
                let role = self.engine.current_role();
                let b = self.engine.binding(role);
                self.engine.step();
                let workgroups_x = workgroup_count(width, WORKGROUP_SIZE);
                let workgroups_y = workgroup_count(height, WORKGROUP_SIZE);
                FrameWork::Submit {
                    workgroups_x,
                    workgroups_y,
                    read_slot: b.read_slot,
                    write_slot: b.write_slot,
                    display_slot: b.write_slot,
                }
            },
            AcquireOutcome::Recoverable => {
                self.config = ConfigState::Unconfigured;
                FrameWork::Reconfigure
            },
            AcquireOutcome::Fatal => FrameWork::Report,
        }
    }
}

/// A zero-area resize never leads to a dispatch or present: the
/// simulation state and role index are untouched and the next plan is
/// to skip, so no frame work can be handed out until a valid size
/// arrives.
pub proof fn lemma_zero_area_resize(pre: Orchestrator, width: u32, height: u32, post: Orchestrator)
    requires
        resize_transition(pre, width, height, post),
        width == 0 || height == 0,
    ensures
        post.engine == pre.engine,
        plan_of(post) == FramePlan::Skip,
{
}

/// A later valid resize resumes rendering with the very containers and
/// role index current at that time: the simulation state is never
/// reseeded by resizing.
pub proof fn lemma_valid_resize_resumes(
    pre: Orchestrator,
    width: u32,
    height: u32,
    post: Orchestrator,
)
    requires
        resize_transition(pre, width, height, post),
        width >= 1,
        height >= 1,
    ensures
        post.engine == pre.engine,
        plan_of(post) == FramePlan::Acquire,
{
}

} // verus!
