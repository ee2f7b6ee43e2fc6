//! Core logic of a window "fullscreenizer": a desktop utility that lists
//! top-level windows, resolves a representative icon for each, and forcibly
//! restyles and resizes a chosen window so that it exactly covers its
//! monitor in a borderless, fullscreen-windowed fashion.
//!
//! This crate holds the decision and computation layer only. The surrounding
//! GUI shell performs the operating-system calls (window enumeration, style
//! mutation, registry and package reads) and feeds their results to the
//! functions here as plain values; every rule about what those results mean
//! and what to do next is stated and proved in this crate.

pub mod bitmap;
pub mod enumerate;
pub mod icon_files;
pub mod manifest;
pub mod text;
pub mod theme;
pub mod transform;
