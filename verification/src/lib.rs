//! Verified core of an OpenGL context-acquisition helper.
//!
//! The library decides everything that does not require a platform call:
//! which enumerated configuration to select, which context API to request
//! next (including the single GL ES fallback after a failed default-API
//! attempt), how a resize request is guarded, and how driver debug reports
//! are decoded into text. A thin unverified layer performs the unsafe
//! window-system and driver calls of acquisition and feeds their outcomes
//! back as events; the live bundle that acquisition hands out then owns
//! its platform handles here, and resizes and presents through trusted
//! wrappers around glutin's safe surface calls.

pub mod acquire;
pub mod config;
pub mod debug;
pub mod error;
pub mod surface;
