//! Device-side client core for an embedded voice-assistant speaker.
//!
//! The library holds the verified logic of the client: the session
//! supervisor's reconnect state machine, the command dispatch table, the
//! instruction pipeline that turns recognized speech into playback requests,
//! the two-stage media resolver, and the per-command request planning.
//! All I/O (websocket transport, HTTP lookups, process execution, audio
//! hardware) is performed by the surrounding application, which feeds plain
//! values in and carries the decided actions out.

pub mod dispatch;
pub mod handlers;
pub mod instruction;
pub mod json;
pub mod protocol;
pub mod recorder;
pub mod resolver;
pub mod supervisor;
