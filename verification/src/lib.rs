//! Core engine of a remote-desktop / screen-sharing agent.
//!
//! The library holds the verified logic of the agent: the geometry and
//! coordinate model, the capture-pipeline state machine, the remote-control
//! translator (sharer arbitration, wheel throttling, keyboard resolution),
//! the session orchestrator's event dispatch, and the IPC message model.
//! Platform bindings (window system, GPU, OS input hooks, real sockets)
//! live outside the library and hand it plain values.

pub mod app_state;
pub mod badge;
pub mod capture;
pub mod controllers;
pub mod display;
pub mod geometry;
pub mod ipc;
pub mod keyboard;
pub mod messages;
pub mod overlay;
pub mod permissions;
pub mod room;
pub mod session;
pub mod sounds;
pub mod thumbnail;
pub mod mouse;
