//! Reactive update and event-dispatch core of a retained-mode widget toolkit.
//!
//! The crate provides the observable-value primitive, the multi-listener
//! event-queue substrate, the per-widget dispatch pipeline, and the two-way
//! layout-negotiation protocol between a container and its children.
//! Rendering backends, theming and windowing are external collaborators and
//! are consumed only through plain values (sizes, input events).

pub mod base;
pub mod checkbox;
pub mod event;
pub mod geom;
pub mod observed;
pub mod pipe;
pub mod vstack;
