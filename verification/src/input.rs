//! From a key press to the command it stands for.

use crate::arbiter::Command;
use crate::heartbeat::{
    create_heartbeat, framed, ControlBits, CTRL_AUX, CTRL_LAND, CTRL_LAUNCH, CTRL_PANIC,
    DEFAULT_CTRL_BITS,
};
use vstd::prelude::*;

verus! {

/// How far one key press moves an axis away from its centre.
pub const AXIS_STEP: u8 = 0x1d;

/// Milliseconds for which a command from the keyboard stays in force.
pub const MOVEMENT_COMMAND_DUR: u64 = 2000;

/// The priority of every command from the keyboard.
pub const KEY_PRIORITY: u32 = 0;

/// The keys that the operator's keyboard reports.
#[derive(Debug, Clone, Copy, PartialEq, Eq)]
pub enum Key {
    Space,
    L,
    O,
    P,
    A,
    Left,
    D,
    Right,
    W,
    Up,
    S,
    Down,
    Q,
    E,
    /// Any other key.
    Other,
}

/// The neutral vector with byte `index` set to `value`.
pub open spec fn neutral_with(index: int, value: u8) -> Seq<u8> {
    DEFAULT_CTRL_BITS@.update(index, value)
}

/// The control vector that a key asks for. The mode keys put their mode
/// into the last byte; the axis keys move roll, pitch or yaw one step off
/// centre. Other keys ask for nothing.
pub open spec fn control_bits_for(key: Key) -> Option<Seq<u8>> {
    match key {
        Key::Space => Some(neutral_with(4, CTRL_LAUNCH)),
        Key::L => Some(neutral_with(4, CTRL_LAND)),
        Key::O => Some(neutral_with(4, CTRL_AUX)),
        Key::P => Some(neutral_with(4, CTRL_PANIC)),
        Key::A | Key::Left => Some(neutral_with(0, 0x63)),
        Key::D | Key::Right => Some(neutral_with(0, 0x9d)),
        Key::W | Key::Up => Some(neutral_with(1, 0x9d)),
        Key::S | Key::Down => Some(neutral_with(1, 0x63)),
        Key::Q => Some(neutral_with(3, 0x9d)),
        Key::E => Some(neutral_with(3, 0x63)),
        Key::Other => None,
    }
}

/// Computes the control vector that a key asks for, starting from the
/// neutral vector. An axis never leaves the range of a byte.
pub fn key_control_bits(key: Key) -> (bits: Option<ControlBits>)
    ensures
        match bits {
            Some(found) => control_bits_for(key) == Some(found@),
            None => control_bits_for(key) is None,
        },
{
    let mut ctrl_bits: ControlBits = DEFAULT_CTRL_BITS;
    match key {
        Key::Space => {
            ctrl_bits[4] = CTRL_LAUNCH;
        },
        Key::L => {
            ctrl_bits[4] = CTRL_LAND;
        },
        Key::O => {
            ctrl_bits[4] = CTRL_AUX;
        },
        Key::P => {
            ctrl_bits[4] = CTRL_PANIC;
        },
        Key::A | Key::Left => {
            ctrl_bits[0] = ctrl_bits[0].saturating_sub(AXIS_STEP);
        },
        Key::D | Key::Right => {
            ctrl_bits[0] = ctrl_bits[0].saturating_add(AXIS_STEP);
        },
        Key::W | Key::Up => {
            ctrl_bits[1] = ctrl_bits[1].saturating_add(AXIS_STEP);
        },
        Key::S | Key::Down => {
            ctrl_bits[1] = ctrl_bits[1].saturating_sub(AXIS_STEP);
        },
        Key::Q => {
            ctrl_bits[3] = ctrl_bits[3].saturating_add(AXIS_STEP);
        },
        Key::E => {
            ctrl_bits[3] = ctrl_bits[3].saturating_sub(AXIS_STEP);
        },
        Key::Other => {
            return None;
        },
    }
    Some(ctrl_bits)
}

/// The command that a key stands for, to stay in force for `duration`
/// milliseconds: the framed control vector of the key, at the keyboard's
/// priority. Keys that ask for nothing give no command.
pub fn key_command(key: Key, duration: u64) -> (command: Option<Command>)
    ensures
        match command {
            Some(found) => {
                &&& control_bits_for(key) is Some
                &&& found.payload@ == framed(control_bits_for(key)->0)
                &&& found.duration == duration
                &&& found.priority == KEY_PRIORITY
            },
            None => control_bits_for(key) is None,
        },
{
    match key_control_bits(key) {
        Some(ctrl_bits) => Some(
            Command { payload: create_heartbeat(ctrl_bits), duration, priority: KEY_PRIORITY },
        ),
        None => None,
    }
}

/// The command that a key stands for, with the duration that keyboard
/// commands have.
pub fn scancode_to_command(key: Key) -> (command: Option<Command>)
    ensures
        match command {
            Some(found) => {
                &&& control_bits_for(key) is Some
                &&& found.payload@ == framed(control_bits_for(key)->0)
                &&& found.duration == MOVEMENT_COMMAND_DUR
                &&& found.priority == KEY_PRIORITY
            },
            None => control_bits_for(key) is None,
        },
{
    key_command(key, MOVEMENT_COMMAND_DUR)
}

/// No key asks for the neutral vector: a key either stands for a command
/// that differs from standby, or for none.
pub proof fn lemma_keys_leave_neutral(key: Key)
    ensures
        control_bits_for(key) is Some ==> control_bits_for(key)->0 != DEFAULT_CTRL_BITS@,
        control_bits_for(key) is Some ==> control_bits_for(key)->0.len() == 5,
{
    match control_bits_for(key) {
        Some(bits) => {
            let neutral = DEFAULT_CTRL_BITS@;
            assert(bits[0] != neutral[0] || bits[1] != neutral[1] || bits[3] != neutral[3]
                || bits[4] != neutral[4]);
        },
        None => {},
    }
}

} // verus!
