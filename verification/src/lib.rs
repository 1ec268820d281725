//! A verified model of a double-buffered cellular-automaton pipeline.
//!
//! The library holds the logic of a GPU-resident Game of Life simulator:
//! the transition rule and its one-generation step over a grid snapshot,
//! the ping-pong pair of state containers with their role index and
//! precomputed binding pair, the workgroup extents of a compute dispatch,
//! and the frame orchestrator's state machine.  The device, surface and
//! window are external collaborators: an unverified front end performs
//! their calls and feeds the outcomes back into the orchestrator.

pub mod dispatch;
pub mod engine;
pub mod frame;
pub mod grid;
pub mod seed;
