//! Client side of a device-control wire protocol modelled on the Android
//! Debug Bridge host protocol: framing, status tokens, per-command transport
//! handshake and the session state machine that keeps every command on a
//! freshly dialed socket.
pub mod builder;
pub mod capture;
pub mod command;
pub mod error;
pub mod framing;
pub mod resolution;
pub mod session;

pub use builder::{AdbBuilder, BootAction, BootEvent, BootPhase, Bootstrap, Config};
pub use capture::{capture_result, Raster};
pub use command::{capture_command, key_command, swipe_command, tap_command, text_command};
pub use error::AGError;
pub use framing::{decode_length, encode_length, frame, status_is_okay};
pub use resolution::{parse_wm_size, resolution_command, resolution_result};
pub use session::{Action, Event, Phase, RecvData, Service, Session};
