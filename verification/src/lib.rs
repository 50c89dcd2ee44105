//! Swapchain lifecycle and per-frame host/device synchronization, as a
//! verified state machine.
//!
//! The library decides; the host performs. Every call that reaches the
//! graphics driver is described by a value the library hands out (a build
//! step, a frame action, a teardown plan) and answered by a value the host
//! hands back (a reply, an event). Handles are carried through untouched.

pub mod index;
pub mod codes;
pub mod plan;
pub mod resource;
pub mod sync;
pub mod recorder;
pub mod swapchain;
pub mod builder;
pub mod renderer;
pub mod device;
