//! Client-side core of a control-group binding.
//!
//! The control-group subsystem is a native, handle-based service. This crate
//! holds everything about talking to it that can be decided without making a
//! native call: the status taxonomy, the lifecycle of group and controller
//! handles, and the begin/next/end cursor protocol shared by the five
//! enumerations. A thin shell performs the native calls and feeds their
//! replies to the functions here; every function states in its contract what
//! it returns for every reply.

pub mod error;
pub mod text;
pub mod cursor;
pub mod laws;
pub mod records;
pub mod iterators;
pub mod manipulation;
pub mod extend;
pub mod initialization;
pub mod config;
