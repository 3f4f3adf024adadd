//! The decision-making core of a minimal real-time rendering harness.
//!
//! The graphics driver is one implicit, global state machine. This crate
//! makes that state explicit: a [`context::GraphicsContext`] mirrors what
//! the driver was told, resource wrappers own the names the driver issued,
//! and every operation returns the exact commands a thin shell has to carry
//! out. Nothing here talks to a driver or a window system.
//!
//! An operation that needs no answer from the driver returns its batch of
//! [`command::Command`]s at once. One that does proceeds in turns (see
//! [`progress`]): each turn takes the [`command::Reply`] to the last command
//! of the turn before and yields the next batch, until a turn ends the
//! operation with its outcome. What a turn amounts to is a function of the
//! state of the operation, the state of the context and the reply; it is
//! written down as the `step` of the operation, and `advance` is proved to
//! do exactly that.
//!
//! The modules, leaves first: [`command`] is the vocabulary; [`text`] deals
//! with zero-terminated strings; [`context`] is the mirror of the driver's
//! state; [`progress`] is the protocol of turns; [`util`] is the debug
//! reporter; [`shader`] builds programs and feeds their uniforms;
//! [`vertex`] creates meshes; [`window`] creates windows and issues the
//! steps of a frame; [`frame`] draws frame after frame.

pub mod command;
pub mod context;
pub mod frame;
pub mod progress;
pub mod shader;
pub mod text;
pub mod util;
pub mod vertex;
pub mod window;
