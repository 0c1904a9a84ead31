//! Core of a desktop window-docking and presentation-mode controller.
//!
//! The library owns the logic that decides how one top-level window moves
//! between its normal presentation, a compact always-on-top "mini" mode, and
//! a "wallpaper" mode in which the window is reparented into the desktop
//! shell's background container. The host application performs the actual
//! window-system calls; this crate computes which calls to make, in which
//! order, and how the observable window state evolves when they are applied.

pub mod auth;
pub mod controller;
pub mod errors;
pub mod geometry;
pub mod laws;
pub mod locator;
pub mod monitors;
pub mod state;
pub mod window;
