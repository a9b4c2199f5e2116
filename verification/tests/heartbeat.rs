use drone_control::heartbeat::{
    create_heartbeat, is_well_formed, AXIS_NEUTRAL, CTRL_AUX, CTRL_IDLE, CTRL_LAND, CTRL_LAUNCH,
    CTRL_PANIC, DEFAULT_CTRL_BITS, HEADER_0, HEADER_1, TRAILER,
};

fn next_random(state: &mut u64) -> u8 {
    *state = state.wrapping_mul(6364136223846793005).wrapping_add(1442695040888963407);
    (*state >> 56) as u8
}

#[test]
fn standby_packet_bytes() {
    let packet = create_heartbeat(DEFAULT_CTRL_BITS);
    assert_eq!(packet, [0x03, 0x66, 0x80, 0x80, 0x80, 0x80, 0x00, 0x00, 0x99]);
    assert!(is_well_formed(&packet));
}

#[test]
fn neutral_vector_is_centred_and_idle() {
    assert_eq!(
        DEFAULT_CTRL_BITS,
        [AXIS_NEUTRAL, AXIS_NEUTRAL, AXIS_NEUTRAL, AXIS_NEUTRAL, CTRL_IDLE]
    );
}

#[test]
fn mode_packets_bytes() {
    assert_eq!(
        create_heartbeat([0x80, 0x80, 0x80, 0x80, CTRL_LAUNCH]),
        [0x03, 0x66, 0x80, 0x80, 0x80, 0x80, 0x01, 0x01, 0x99]
    );
    assert_eq!(
        create_heartbeat([0x80, 0x80, 0x80, 0x80, CTRL_LAND]),
        [0x03, 0x66, 0x80, 0x80, 0x80, 0x80, 0x02, 0x02, 0x99]
    );
    assert_eq!(
        create_heartbeat([0x80, 0x80, 0x80, 0x80, CTRL_AUX]),
        [0x03, 0x66, 0x80, 0x80, 0x80, 0x80, 0x03, 0x03, 0x99]
    );
    assert_eq!(
        create_heartbeat([0x80, 0x80, 0x80, 0x80, CTRL_PANIC]),
        [0x03, 0x66, 0x80, 0x80, 0x80, 0x80, 0x04, 0x04, 0x99]
    );
}

#[test]
fn checksum_is_xor_of_control_bytes() {
    let packet = create_heartbeat([0x12, 0x34, 0x56, 0x78, 0x9a]);
    assert_eq!(packet[7], 0x12 ^ 0x34 ^ 0x56 ^ 0x78 ^ 0x9a);
    assert_eq!(packet[7], 0x92);
    assert_eq!(packet, [0x03, 0x66, 0x12, 0x34, 0x56, 0x78, 0x9a, 0x92, 0x99]);
}

#[test]
fn extreme_vectors_are_framed() {
    assert_eq!(
        create_heartbeat([0x00; 5]),
        [0x03, 0x66, 0x00, 0x00, 0x00, 0x00, 0x00, 0x00, 0x99]
    );
    assert_eq!(
        create_heartbeat([0xff; 5]),
        [0x03, 0x66, 0xff, 0xff, 0xff, 0xff, 0xff, 0xff, 0x99]
    );
}

#[test]
fn every_packet_is_framed_and_checksummed() {
    let mut state: u64 = 0x1234_5678_9abc_def0;
    for _ in 0..20_000 {
        let bits = [
            next_random(&mut state),
            next_random(&mut state),
            next_random(&mut state),
            next_random(&mut state),
            next_random(&mut state),
        ];
        let packet = create_heartbeat(bits);
        assert_eq!(packet.len(), 9);
        assert_eq!(packet[0], HEADER_0);
        assert_eq!(packet[1], HEADER_1);
        assert_eq!(packet[8], TRAILER);
        assert_eq!(&packet[2..7], &bits[..]);
        assert_eq!(packet[7], packet[2] ^ packet[3] ^ packet[4] ^ packet[5] ^ packet[6]);
        assert!(is_well_formed(&packet));
    }
}

#[test]
fn single_byte_sweep_of_each_position() {
    for position in 0..5 {
        for value in 0..=255u8 {
            let mut bits = DEFAULT_CTRL_BITS;
            bits[position] = value;
            let packet = create_heartbeat(bits);
            let expected = bits[0] ^ bits[1] ^ bits[2] ^ bits[3] ^ bits[4];
            assert_eq!(packet[7], expected);
            assert_eq!(packet[2 + position], value);
        }
    }
}

#[test]
fn tampered_packets_are_not_well_formed() {
    let good = create_heartbeat([0x80, 0x9d, 0x80, 0x63, 0x01]);
    assert!(is_well_formed(&good));
    for position in 0..9 {
        let mut bad = good;
        bad[position] ^= 0x40;
        assert!(!is_well_formed(&bad), "byte {} was changed", position);
    }
}

#[test]
fn encoding_is_deterministic() {
    let bits = [0x01, 0x02, 0x03, 0x04, 0x05];
    assert_eq!(create_heartbeat(bits), create_heartbeat(bits));
}
