//! A minimal real-time rendering core: swap-chain negotiation, render-target
//! bookkeeping, frame synchronization, and create/destroy symmetry for GPU
//! resources, with the decision logic verified.
//!
//! The GPU and the window system are external collaborators: an outer shell
//! performs the actual device and window calls and feeds their outcomes back
//! into the verified state machines defined here.

pub mod bootstrap;
pub mod errors;
pub mod geometry;
pub mod input;
pub mod ledger;
pub mod pipeline;
pub mod renderer;
pub mod swapchain;
pub mod targets;
