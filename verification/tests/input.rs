use drone_control::arbiter::Command;
use drone_control::heartbeat::{create_heartbeat, is_well_formed, DEFAULT_CTRL_BITS};
use drone_control::input::{
    key_command, key_control_bits, scancode_to_command, Key, AXIS_STEP, KEY_PRIORITY,
    MOVEMENT_COMMAND_DUR,
};

const KEYS: [Key; 15] = [
    Key::Space,
    Key::L,
    Key::O,
    Key::P,
    Key::A,
    Key::Left,
    Key::D,
    Key::Right,
    Key::W,
    Key::Up,
    Key::S,
    Key::Down,
    Key::Q,
    Key::E,
    Key::Other,
];

#[test]
fn keyboard_constants() {
    assert_eq!(AXIS_STEP, 0x1d);
    assert_eq!(MOVEMENT_COMMAND_DUR, 2000);
    assert_eq!(KEY_PRIORITY, 0);
}

#[test]
fn mode_keys_set_the_mode_byte() {
    assert_eq!(key_control_bits(Key::Space), Some([0x80, 0x80, 0x80, 0x80, 0x01]));
    assert_eq!(key_control_bits(Key::L), Some([0x80, 0x80, 0x80, 0x80, 0x02]));
    assert_eq!(key_control_bits(Key::O), Some([0x80, 0x80, 0x80, 0x80, 0x03]));
    assert_eq!(key_control_bits(Key::P), Some([0x80, 0x80, 0x80, 0x80, 0x04]));
}

#[test]
fn axis_keys_move_one_step_off_centre() {
    assert_eq!(key_control_bits(Key::A), Some([0x63, 0x80, 0x80, 0x80, 0x00]));
    assert_eq!(key_control_bits(Key::Left), Some([0x63, 0x80, 0x80, 0x80, 0x00]));
    assert_eq!(key_control_bits(Key::D), Some([0x9d, 0x80, 0x80, 0x80, 0x00]));
    assert_eq!(key_control_bits(Key::Right), Some([0x9d, 0x80, 0x80, 0x80, 0x00]));
    assert_eq!(key_control_bits(Key::W), Some([0x80, 0x9d, 0x80, 0x80, 0x00]));
    assert_eq!(key_control_bits(Key::Up), Some([0x80, 0x9d, 0x80, 0x80, 0x00]));
    assert_eq!(key_control_bits(Key::S), Some([0x80, 0x63, 0x80, 0x80, 0x00]));
    assert_eq!(key_control_bits(Key::Down), Some([0x80, 0x63, 0x80, 0x80, 0x00]));
    assert_eq!(key_control_bits(Key::Q), Some([0x80, 0x80, 0x80, 0x9d, 0x00]));
    assert_eq!(key_control_bits(Key::E), Some([0x80, 0x80, 0x80, 0x63, 0x00]));
}

#[test]
fn other_keys_give_nothing() {
    assert_eq!(key_control_bits(Key::Other), None);
    assert_eq!(scancode_to_command(Key::Other), None);
    assert_eq!(key_command(Key::Other, 10), None);
}

#[test]
fn launch_key_gives_the_launch_command() {
    assert_eq!(
        scancode_to_command(Key::Space),
        Some(Command {
            payload: [0x03, 0x66, 0x80, 0x80, 0x80, 0x80, 0x01, 0x01, 0x99],
            duration: 2000,
            priority: 0,
        })
    );
}

#[test]
fn roll_left_key_gives_its_packet() {
    assert_eq!(
        scancode_to_command(Key::A),
        Some(Command {
            payload: [0x03, 0x66, 0x63, 0x80, 0x80, 0x80, 0x00, 0xe3, 0x99],
            duration: 2000,
            priority: 0,
        })
    );
}

#[test]
fn every_key_command_frames_its_vector() {
    for key in KEYS {
        match key_control_bits(key) {
            Some(bits) => {
                assert_ne!(bits, DEFAULT_CTRL_BITS);
                let command = scancode_to_command(key).unwrap();
                assert_eq!(command.payload, create_heartbeat(bits));
                assert!(is_well_formed(&command.payload));
                assert_eq!(command.duration, MOVEMENT_COMMAND_DUR);
                assert_eq!(command.priority, KEY_PRIORITY);
            },
            None => {
                assert_eq!(key, Key::Other);
                assert_eq!(scancode_to_command(key), None);
            },
        }
    }
}

#[test]
fn duration_can_be_chosen() {
    let command = key_command(Key::P, 750).unwrap();
    assert_eq!(command.duration, 750);
    assert_eq!(command.payload, create_heartbeat([0x80, 0x80, 0x80, 0x80, 0x04]));
    assert_eq!(key_command(Key::P, 0).unwrap().duration, 0);
    assert_eq!(key_command(Key::P, u64::MAX).unwrap().duration, u64::MAX);
}
