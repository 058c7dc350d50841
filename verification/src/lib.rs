//! Lifecycle of a single presentable rendering surface bound to a window.
//!
//! The crate holds the decisions: how a requested size becomes a stored
//! surface configuration, how the outcome of a frame acquisition is
//! classified, and how window events move the surface between running and
//! exiting. It performs no graphics or windowing work itself; a host program
//! feeds it plain values and carries out the actions it answers with.

pub mod config;
pub mod frame;
pub mod lifecycle;
pub mod startup;
