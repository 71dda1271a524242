//! Core of a vehicle-status forwarder: it turns user-supplied options into a
//! connectable session configuration and publishes binary-encoded vehicle
//! status values onto a pub/sub transport under one fixed topic.
//!
//! The transport itself (connection handling, discovery, delivery) is a
//! collaborator behind the traits in [`transport`]; the codec that turns a
//! status value into bytes is a collaborator behind [`status::EncodableStatus`].

pub mod endpoint;
pub mod errors;
pub mod recording;
pub mod session_config;
pub mod status;
pub mod status_publishing;
pub mod transport;
