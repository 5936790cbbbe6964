//! A supervised bridge to a backend child process that speaks newline
//! delimited JSON over its standard streams: the lifecycle state machine
//! (`bridge`), the line protocol (`protocol`), where the backend script is
//! looked for (`locator`) and a renderer setting of the host (`platform`).

pub mod bridge;
pub mod locator;
pub mod platform;
pub mod protocol;
