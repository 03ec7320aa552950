//! A component runtime for hot-reloadable user-interface views.
//!
//! A host application loads a *component* (an independently built view
//! program), asks it to produce a tree of user-interface nodes, dispatches
//! event callbacks into it by handle, and can swap it for a newer build
//! without losing the logical identity of the hosting widget.

pub mod artifact;
pub mod builder;
pub mod closure;
pub mod codec;
pub mod color;
pub mod context;
pub mod counter;
pub mod decimal;
pub mod error;
pub mod guest;
pub mod node;
pub mod runtime;
pub mod table;
