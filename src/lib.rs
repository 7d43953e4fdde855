//! Configuration wizard and installation session for an operating-system
//! installer: the step graph, input validation, the Wi-Fi connection rules,
//! the bounded event log and the bookkeeping of the installation progress.
pub mod text;
pub mod validation;
pub mod disk;
pub mod events;
pub mod model;
pub mod logging;
pub mod session;
pub mod steps;
pub mod wizard;
pub mod network;
pub mod config;
pub mod review;
pub mod progress;
