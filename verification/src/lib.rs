//! Verified core of a Windows-style window shell.
//!
//! The crate models the state and decision logic of one top-level native
//! window: conversion between outer window rectangles and client bounds,
//! double/triple-click classification, the mutable window-state record with
//! its fullscreen and deferred-placement state machines, the handle registry
//! that stands behind the native user-data slot, the two-phase creation
//! protocol, and the drag-drop and prompt decision paths.  All native calls
//! themselves (window creation, placement, dialogs, OLE) live outside the
//! crate; the functions here take the results of those calls as plain values
//! and are verified for every such value.

pub mod click;
pub mod composition;
pub mod creation;
pub mod dragdrop;
pub mod geometry;
pub mod prompt;
pub mod registry;
pub mod state;
