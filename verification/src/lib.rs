//! Control link to a drone on the local network: the heartbeat codec, the
//! session-setup exchange, command arbitration with the transport loop's
//! cadence, and the media relay. Every decision is made here, on plain
//! values; sockets, clocks and threads belong to the caller.

pub mod arbiter;
pub mod config;
pub mod decimal;
pub mod frame;
pub mod handshake;
pub mod heartbeat;
pub mod input;
pub mod relay;
pub mod text;
pub mod trace;
pub mod transport;

pub use arbiter::{ActiveCommand, Arbiter, Command};
pub use heartbeat::{
    create_heartbeat, ControlBits, Heartbeat, CTRL_AUX, CTRL_LAND, CTRL_LAUNCH, CTRL_PANIC,
    DEFAULT_CTRL_BITS,
};
