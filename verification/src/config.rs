//! The settings of a session, and the values they have unless the caller
//! says otherwise.

use crate::input::MOVEMENT_COMMAND_DUR;
use vstd::prelude::*;
use vstd::string::StringExecFns;

verus! {

/// Local address from which control packets are sent.
pub const SOURCE_ADDR: &'static str = "0.0.0.0:58737";

/// Remote address to which control packets go.
pub const DEST_ADDR: &'static str = "192.168.1.1:7099";

/// Remote address of the session-setup service.
pub const DEST_TCP_ADDR: &'static str = "192.168.1.1:7070";

/// Local address to which the media is forwarded.
pub const VIDEO_FWD_ADDR: &'static str = "127.0.0.1:9090";

/// Local port on which the media arrives; the control feedback arrives on
/// the port after it.
pub const LOCAL_VIDEO_PORT: u16 = 8768;

/// Milliseconds between two heartbeats.
pub const HEARTBEAT_INTERVAL: u64 = 100;

/// The settings of one session.
#[derive(Debug, Clone, PartialEq, Eq)]
pub struct Config {
    pub source_addr: String,
    pub dest_addr: String,
    pub setup_addr: String,
    pub playback_addr: String,
    pub local_media_port: u16,
    pub heartbeat_interval: u64,
    pub command_duration: u64,
}

impl Config {
    /// The settings can be used: the media port has a port after it for
    /// the control feedback, and the heartbeat has a cadence.
    pub open spec fn usable(&self) -> bool {
        self.local_media_port < u16::MAX && self.heartbeat_interval > 0
    }

    /// Whether the settings can be used.
    pub fn is_usable(&self) -> (usable: bool)
        ensures
            usable == self.usable(),
    {
        self.local_media_port < u16::MAX && self.heartbeat_interval > 0
    }
}

impl Default for Config {
    fn default() -> (config: Config)
        ensures
            config.source_addr@ == SOURCE_ADDR@,
            config.dest_addr@ == DEST_ADDR@,
            config.setup_addr@ == DEST_TCP_ADDR@,
            config.playback_addr@ == VIDEO_FWD_ADDR@,
            config.local_media_port == LOCAL_VIDEO_PORT,
            config.heartbeat_interval == HEARTBEAT_INTERVAL,
            config.command_duration == MOVEMENT_COMMAND_DUR,
            config.usable(),
    {
        Config {
            source_addr: String::from_str(SOURCE_ADDR),
            dest_addr: String::from_str(DEST_ADDR),
            setup_addr: String::from_str(DEST_TCP_ADDR),
            playback_addr: String::from_str(VIDEO_FWD_ADDR),
            local_media_port: LOCAL_VIDEO_PORT,
            heartbeat_interval: HEARTBEAT_INTERVAL,
            command_duration: MOVEMENT_COMMAND_DUR,
        }
    }
}

} // verus!
