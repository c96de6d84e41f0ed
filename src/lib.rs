// Telemetry core for a headset bridge: reading the bridge's packets, the
// reader's connection lifecycle, start/stop of reading sessions, and the
// bookkeeping of the focus classifier.

pub mod inference;
pub mod mock;
pub mod packet;
pub mod reader;
pub mod session;

pub use packet::{EegPayload, RawESense, RawEegPower, TgcPacket};
