//! The decisions of a small graphics engine, apart from the driver that
//! carries them out.
//!
//! - [`adapter`] and [`extensions`] describe the physical adapters.
//! - [`selector`] chooses the adapter and queue family for each role.
//! - [`factory`] plans the logical devices for a selection, and
//!   [`hardware`] takes their queues once the driver has made them.
//! - [`screen`] chooses the parameters of the swapchain and keeps it
//!   together with its framebuffers.
//! - [`frame`] and [`engine`] are the frame loop: a state machine that is
//!   told what happened and answers what to do next.

pub mod adapter;
pub mod engine;
pub mod extensions;
pub mod factory;
pub mod frame;
pub mod hardware;
pub mod screen;
pub mod selector;
