//! The property model of a rigid body node in a 2D scene.
//!
//! A rigid body node keeps its physical properties in cells that remember whether
//! a value was set on this very node or is still taken over from a template, and it
//! queues the commands (forces, impulses, wake-ups) that the physics backend is to
//! apply at its next step.
//!
//! - [`variable`]: the property cell and the laws of setting and inheriting;
//! - [`action`]: the commands and their queue, with the laws of its order;
//! - [`handle`]: the handle of the backend's body;
//! - [`math`]: the numbers and vectors that the properties hold;
//! - [`rigidbody`]: the node and its builder.

pub mod action;
pub mod handle;
pub mod math;
pub mod rigidbody;
pub mod variable;
