//! Supervisory core of a desktop tray application that fronts a locally
//! running backend process: snapshot data model, change detection, control
//! surface rendering, poll-result classification, process supervision, and
//! operator command dispatch.

pub mod control;
pub mod differ;
pub mod poller;
pub mod ports;
pub mod render;
pub mod status;
pub mod supervisor;
pub mod update;
