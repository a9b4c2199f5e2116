//! The heartbeat codec: five control bytes in, one framed and checksummed
//! nine-byte packet out.

use vstd::prelude::*;

verus! {

/// The five control bytes of one heartbeat: roll, pitch, throttle, yaw and
/// the mode byte.
pub type ControlBits = [u8; 5];

/// One framed heartbeat packet as it goes onto the wire.
pub type Heartbeat = [u8; 9];

/// First byte of every packet.
pub const HEADER_0: u8 = 0x03;

/// Second byte of every packet.
pub const HEADER_1: u8 = 0x66;

/// Last byte of every packet.
pub const TRAILER: u8 = 0x99;

/// Centre position of an axis byte.
pub const AXIS_NEUTRAL: u8 = 0x80;

/// Mode byte: nothing requested.
pub const CTRL_IDLE: u8 = 0x00;

/// Mode byte: take off.
pub const CTRL_LAUNCH: u8 = 0x01;

/// Mode byte: land.
pub const CTRL_LAND: u8 = 0x02;

/// Mode byte: auxiliary function.
pub const CTRL_AUX: u8 = 0x03;

/// Mode byte: emergency stop.
pub const CTRL_PANIC: u8 = 0x04;

/// The neutral control vector, sent whenever no command is in force.
pub const DEFAULT_CTRL_BITS: ControlBits = [0x80, 0x80, 0x80, 0x80, 0x00];

/// XOR of the five control bytes.
pub open spec fn checksum(bits: Seq<u8>) -> u8 {
    bits[0] ^ bits[1] ^ bits[2] ^ bits[3] ^ bits[4]
}

/// The packet that carries `bits`: header, control bytes, checksum, trailer.
pub open spec fn framed(bits: Seq<u8>) -> Seq<u8> {
    seq![HEADER_0, HEADER_1, bits[0], bits[1], bits[2], bits[3], bits[4], checksum(bits), TRAILER]
}

/// The control bytes that a packet carries.
pub open spec fn control_bits_of(packet: Seq<u8>) -> Seq<u8> {
    packet.subrange(2, 7)
}

/// A packet is well formed when it has nine bytes, the fixed header and
/// trailer, and a checksum byte equal to the XOR of bytes 2 to 6.
pub open spec fn well_formed(packet: Seq<u8>) -> bool {
    &&& packet.len() == 9
    &&& packet[0] == HEADER_0
    &&& packet[1] == HEADER_1
    &&& packet[7] == packet[2] ^ packet[3] ^ packet[4] ^ packet[5] ^ packet[6]
    &&& packet[8] == TRAILER
}

/// Frames a control vector. Every byte value is accepted.
pub fn create_heartbeat(ctrl_bits: ControlBits) -> (packet: Heartbeat)
    ensures
        packet@ == framed(ctrl_bits@),
        well_formed(packet@),
        control_bits_of(packet@) == ctrl_bits@,
{
    let verif_bit: u8 = ctrl_bits[0] ^ ctrl_bits[1] ^ ctrl_bits[2] ^ ctrl_bits[3] ^ ctrl_bits[4];
    let packet: Heartbeat = [
        HEADER_0,
        HEADER_1,
        ctrl_bits[0],
        ctrl_bits[1],
        ctrl_bits[2],
        ctrl_bits[3],
        ctrl_bits[4],
        verif_bit,
        TRAILER,
    ];
    assert(control_bits_of(packet@) =~= ctrl_bits@);
    packet
}

/// Tells whether nine bytes are a packet that `create_heartbeat` could have
/// produced.
pub fn is_well_formed(packet: &Heartbeat) -> (ok: bool)
    ensures
        ok == well_formed(packet@),
{
    packet[0] == HEADER_0 && packet[1] == HEADER_1 && packet[7] == packet[2] ^ packet[3]
        ^ packet[4] ^ packet[5] ^ packet[6] && packet[8] == TRAILER
}

/// Framing always yields a well-formed packet that carries exactly the
/// bytes it was given.
pub proof fn lemma_framed_well_formed(bits: Seq<u8>)
    requires
        bits.len() == 5,
    ensures
        well_formed(framed(bits)),
        control_bits_of(framed(bits)) == bits,
{
    assert(control_bits_of(framed(bits)) =~= bits);
}

/// Every well-formed packet is the framing of the control bytes it carries:
/// the codec produces all of them, and nothing else is well formed.
pub proof fn lemma_well_formed_is_framed(packet: Seq<u8>)
    requires
        well_formed(packet),
    ensures
        packet == framed(control_bits_of(packet)),
{
    assert(packet =~= framed(control_bits_of(packet)));
}

/// Two control vectors that frame to the same packet are the same vector.
pub proof fn lemma_framed_injective(a: Seq<u8>, b: Seq<u8>)
    requires
        a.len() == 5,
        b.len() == 5,
        framed(a) == framed(b),
    ensures
        a == b,
{
    lemma_framed_well_formed(a);
    lemma_framed_well_formed(b);
}

/// The neutral vector frames to the standby packet, byte for byte.
pub proof fn lemma_standby_bytes()
    ensures
        framed(DEFAULT_CTRL_BITS@) == seq![
            0x03u8,
            0x66u8,
            0x80u8,
            0x80u8,
            0x80u8,
            0x80u8,
            0x00u8,
            0x00u8,
            0x99u8,
        ],
{
    assert(0x80u8 ^ 0x80u8 ^ 0x80u8 ^ 0x80u8 ^ 0x00u8 == 0x00u8) by (bit_vector);
    assert(framed(DEFAULT_CTRL_BITS@) =~= seq![
        0x03u8,
        0x66u8,
        0x80u8,
        0x80u8,
        0x80u8,
        0x80u8,
        0x00u8,
        0x00u8,
        0x99u8,
    ]);
}

} // verus!
