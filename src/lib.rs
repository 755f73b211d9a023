//! Protocol-polymorphic service health checking: the decisions behind one
//! liveness probe per service (HTTP, SSH, TeamSpeak) and the change-aware
//! status record that each monitored service keeps.
pub mod http;
pub mod service;
pub mod ssh;
pub mod status;
pub mod teamspeak;
pub mod text;

pub use http::HTTP;
pub use service::{ConfigError, Probe, ServiceType, ServiceWrapper};
pub use ssh::SSH;
pub use status::ServerLastStatus;
pub use teamspeak::TeamSpeak;
