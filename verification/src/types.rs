//! Measurement kinds, the bus message, and the fixed-layout wire codec.
//!
//! Every process on the bus shares this module's view of the frame layout:
//! a 10-byte frame holding a little-endian 32-bit kind tag, a little-endian
//! 16-bit integral reading, and the 32-bit IEEE-754 bit pattern of the
//! decimal reading, also little-endian.

use vstd::prelude::*;

verus! {

/// The closed set of physical quantities the bus carries. The tag mapping
/// (see [`spec_pub_type_index`]) is stable: both ends of the bus must agree
/// on it, and the cache is pre-populated from the full list.
#[derive(Clone, Copy, PartialEq, Eq, Structural, Debug)]
pub enum PubType {
    PressureSensorTemperature,
    PressureSensorPressure,
    LongDistanceSensor,
    AccelerometerZ,
    GyroscopeX,
    GyroscopeY,
    IsFalling,
    PowerButton,
}

/// Number of declared measurement kinds.
pub const PUB_TYPE_COUNT: usize = 8;

/// Ordinal of a kind: its wire tag and its slot in the live-state cache.
pub open spec fn spec_pub_type_index(k: PubType) -> int {
    match k {
        PubType::PressureSensorTemperature => 0,
        PubType::PressureSensorPressure => 1,
        PubType::LongDistanceSensor => 2,
        PubType::AccelerometerZ => 3,
        PubType::GyroscopeX => 4,
        PubType::GyroscopeY => 5,
        PubType::IsFalling => 6,
        PubType::PowerButton => 7,
    }
}

/// The kind with a given ordinal, for ordinals below [`PUB_TYPE_COUNT`].
pub open spec fn spec_pub_type_of_index(i: int) -> PubType
    recommends
        0 <= i < PUB_TYPE_COUNT,
{
    if i == 0 {
        PubType::PressureSensorTemperature
    } else if i == 1 {
        PubType::PressureSensorPressure
    } else if i == 2 {
        PubType::LongDistanceSensor
    } else if i == 3 {
        PubType::AccelerometerZ
    } else if i == 4 {
        PubType::GyroscopeX
    } else if i == 5 {
        PubType::GyroscopeY
    } else if i == 6 {
        PubType::IsFalling
    } else {
        PubType::PowerButton
    }
}

/// The two spec maps above are mutually inverse.
pub proof fn lemma_pub_type_index_bijective()
    ensures
        forall|k: PubType| spec_pub_type_of_index(#[trigger] spec_pub_type_index(k)) == k,
        forall|i: int|
            0 <= i < PUB_TYPE_COUNT ==> spec_pub_type_index(#[trigger] spec_pub_type_of_index(i))
                == i,
{
}

/// Ordinal of a kind.
pub fn pub_type_index(k: PubType) -> (i: usize)
    ensures
        i == spec_pub_type_index(k),
        i < PUB_TYPE_COUNT,
{
    match k {
        PubType::PressureSensorTemperature => 0,
        PubType::PressureSensorPressure => 1,
        PubType::LongDistanceSensor => 2,
        PubType::AccelerometerZ => 3,
        PubType::GyroscopeX => 4,
        PubType::GyroscopeY => 5,
        PubType::IsFalling => 6,
        PubType::PowerButton => 7,
    }
}

/// The kind with a given ordinal; `None` for ordinals past the end.
pub fn pub_type_from_index(i: usize) -> (r: Option<PubType>)
    ensures
        i < PUB_TYPE_COUNT ==> r == Some(spec_pub_type_of_index(i as int)),
        i >= PUB_TYPE_COUNT ==> r is None,
{
    if i == 0 {
        Some(PubType::PressureSensorTemperature)
    } else if i == 1 {
        Some(PubType::PressureSensorPressure)
    } else if i == 2 {
        Some(PubType::LongDistanceSensor)
    } else if i == 3 {
        Some(PubType::AccelerometerZ)
    } else if i == 4 {
        Some(PubType::GyroscopeX)
    } else if i == 5 {
        Some(PubType::GyroscopeY)
    } else if i == 6 {
        Some(PubType::IsFalling)
    } else if i == 7 {
        Some(PubType::PowerButton)
    } else {
        None
    }
}

/// The full ordered list of kinds, index `i` holding the kind of ordinal `i`.
/// Downstream consumers use it to enumerate the available channels; the cache
/// is pre-populated from it.
pub fn all_pub_types() -> (r: Vec<PubType>)
    ensures
        r@.len() == PUB_TYPE_COUNT,
        forall|i: int| 0 <= i < PUB_TYPE_COUNT ==> r@[i] == spec_pub_type_of_index(i),
{
    let mut r: Vec<PubType> = Vec::new();
    r.push(PubType::PressureSensorTemperature);
    r.push(PubType::PressureSensorPressure);
    r.push(PubType::LongDistanceSensor);
    r.push(PubType::AccelerometerZ);
    r.push(PubType::GyroscopeX);
    r.push(PubType::GyroscopeY);
    r.push(PubType::IsFalling);
    r.push(PubType::PowerButton);
    r
}

/// Display name of a kind.
pub open spec fn spec_pub_type_name(k: PubType) -> Seq<char> {
    match k {
        PubType::PressureSensorTemperature => "PressureSensorTemperature"@,
        PubType::PressureSensorPressure => "PressureSensorPressure"@,
        PubType::LongDistanceSensor => "LongDistanceSensor"@,
        PubType::AccelerometerZ => "AccelerometerZ"@,
        PubType::GyroscopeX => "GyroscopeX"@,
        PubType::GyroscopeY => "GyroscopeY"@,
        PubType::IsFalling => "IsFalling"@,
        PubType::PowerButton => "PowerButton"@,
    }
}

/// Display name of a kind, as a fresh string.
pub fn pub_type_name(k: PubType) -> (r: String)
    ensures
        r@ == spec_pub_type_name(k),
{
    match k {
        PubType::PressureSensorTemperature => "PressureSensorTemperature".to_owned(),
        PubType::PressureSensorPressure => "PressureSensorPressure".to_owned(),
        PubType::LongDistanceSensor => "LongDistanceSensor".to_owned(),
        PubType::AccelerometerZ => "AccelerometerZ".to_owned(),
        PubType::GyroscopeX => "GyroscopeX".to_owned(),
        PubType::GyroscopeY => "GyroscopeY".to_owned(),
        PubType::IsFalling => "IsFalling".to_owned(),
        PubType::PowerButton => "PowerButton".to_owned(),
    }
}

/// The kind whose display name is `pub_type`, or `None` when no kind is
/// called that.
pub fn str_to_pub_type(pub_type: &str) -> (r: Option<PubType>)
    ensures
        match r {
            Some(k) => pub_type@ == spec_pub_type_name(k),
            None => forall|k: PubType| pub_type@ != spec_pub_type_name(k),
        },
{
    let s = pub_type.to_owned();
    if s == "PressureSensorTemperature".to_owned() {
        Some(PubType::PressureSensorTemperature)
    } else if s == "PressureSensorPressure".to_owned() {
        Some(PubType::PressureSensorPressure)
    } else if s == "LongDistanceSensor".to_owned() {
        Some(PubType::LongDistanceSensor)
    } else if s == "AccelerometerZ".to_owned() {
        Some(PubType::AccelerometerZ)
    } else if s == "GyroscopeX".to_owned() {
        Some(PubType::GyroscopeX)
    } else if s == "GyroscopeY".to_owned() {
        Some(PubType::GyroscopeY)
    } else if s == "IsFalling".to_owned() {
        Some(PubType::IsFalling)
    } else if s == "PowerButton".to_owned() {
        Some(PubType::PowerButton)
    } else {
        assert forall|k: PubType| pub_type@ != spec_pub_type_name(k) by {
            match k {
                PubType::PressureSensorTemperature => assert(pub_type@ != spec_pub_type_name(k)),
                PubType::PressureSensorPressure => assert(pub_type@ != spec_pub_type_name(k)),
                PubType::LongDistanceSensor => assert(pub_type@ != spec_pub_type_name(k)),
                PubType::AccelerometerZ => assert(pub_type@ != spec_pub_type_name(k)),
                PubType::GyroscopeX => assert(pub_type@ != spec_pub_type_name(k)),
                PubType::GyroscopeY => assert(pub_type@ != spec_pub_type_name(k)),
                PubType::IsFalling => assert(pub_type@ != spec_pub_type_name(k)),
                PubType::PowerButton => assert(pub_type@ != spec_pub_type_name(k)),
            }
        }
        None
    }
}

/// One sample on the bus. `integral` is the coarse legacy reading; `decimal`
/// holds the 32-bit IEEE-754 bit pattern of the same sample. Producers keep
/// the two consistent (see [`crate::utils`]).
#[derive(Clone, Copy, PartialEq, Eq, Structural, Debug)]
pub struct PubMessage {
    pub pub_type: PubType,
    pub integral: i16,
    pub decimal: u32,
}

/// Exact size of a wire frame in bytes. The transport reads exactly this
/// many bytes per frame, so I/O buffers can be sized statically.
pub const MSG_SIZE: usize = 10;

/// The unsigned 16-bit wire value of an integral reading: its two's
/// complement representative in `0 .. 65536`.
pub open spec fn spec_i16_wire(v: i16) -> int {
    if v >= 0 {
        v as int
    } else {
        v + 65536
    }
}

/// The frame encoding a message: kind tag as a little-endian 32-bit word,
/// integral as a little-endian 16-bit word, decimal bit pattern as a
/// little-endian 32-bit word.
pub open spec fn spec_serialize(m: PubMessage) -> Seq<u8> {
    let tag = spec_pub_type_index(m.pub_type);
    let iv = spec_i16_wire(m.integral);
    let d = m.decimal as int;
    seq![
        tag as u8,
        0u8,
        0u8,
        0u8,
        (iv % 256) as u8,
        (iv / 256) as u8,
        (d % 256) as u8,
        ((d / 256) % 256) as u8,
        ((d / 65536) % 256) as u8,
        (d / 16777216) as u8,
    ]
}

/// The message a frame decodes to: `None` exactly on a frame of the wrong
/// length or with an out-of-range kind tag. No partial message ever comes
/// back.
pub open spec fn spec_deserialize(b: Seq<u8>) -> Option<PubMessage> {
    if b.len() != MSG_SIZE {
        None
    } else {
        let tag = b[0] + 256 * b[1] + 65536 * b[2] + 16777216 * b[3];
        if tag >= PUB_TYPE_COUNT {
            None
        } else {
            let iv = b[4] + 256 * b[5];
            let d = b[6] + 256 * b[7] + 65536 * b[8] + 16777216 * b[9];
            Some(
                PubMessage {
                    pub_type: spec_pub_type_of_index(tag),
                    integral: (if iv < 32768 {
                        iv
                    } else {
                        iv - 65536
                    }) as i16,
                    decimal: d as u32,
                },
            )
        }
    }
}

/// A 32-bit word is recovered from its four little-endian bytes.
proof fn lemma_u32_le_bytes_id(x: int)
    requires
        0 <= x < 0x1_0000_0000,
    ensures
        x % 256 + 256 * ((x / 256) % 256) + 65536 * ((x / 65536) % 256) + 16777216 * (x
            / 16777216) == x,
{
    let q1 = x / 256;
    let q2 = x / 65536;
    let q3 = x / 16777216;
    assert(x == 256 * q1 + x % 256);
    assert(q1 / 256 == q2) by (nonlinear_arith)
        requires
            q1 == x / 256 && q2 == x / 65536 && x >= 0,
    ;
    assert(q2 / 256 == q3) by (nonlinear_arith)
        requires
            q2 == x / 65536 && q3 == x / 16777216 && x >= 0,
    ;
    assert(q1 == 256 * (q1 / 256) + q1 % 256);
    assert(q2 == 256 * (q2 / 256) + q2 % 256);
    assert(q3 < 256);
}

/// Round trip: every representable message decodes from its own frame.
pub proof fn lemma_codec_round_trip(m: PubMessage)
    ensures
        spec_deserialize(spec_serialize(m)) == Some(m),
{
    let b = spec_serialize(m);
    assert(b.len() == MSG_SIZE);
    let tag = spec_pub_type_index(m.pub_type);
    assert(b[0] == tag as u8 && b[1] == 0 && b[2] == 0 && b[3] == 0);
    assert(0 <= tag < 8);
    assert(b[0] + 256 * b[1] + 65536 * b[2] + 16777216 * b[3] == tag);
    lemma_pub_type_index_bijective();
    let iv = spec_i16_wire(m.integral);
    assert(0 <= iv < 65536);
    assert(b[4] + 256 * b[5] == iv % 256 + 256 * (iv / 256));
    assert(iv % 256 + 256 * (iv / 256) == iv);
    assert((if iv < 32768 { iv } else { iv - 65536 }) == m.integral as int);
    let d = m.decimal as int;
    lemma_u32_le_bytes_id(d);
    assert(d / 16777216 < 256);
    assert(b[6] + 256 * b[7] + 65536 * b[8] + 16777216 * b[9] == d);
}

/// A frame of the wrong length, or one whose kind tag is out of range,
/// always fails to decode; no partially filled message is ever produced.
pub proof fn lemma_decode_rejects(b: Seq<u8>)
    requires
        b.len() != MSG_SIZE || b[0] + 256 * b[1] + 65536 * b[2] + 16777216 * b[3]
            >= PUB_TYPE_COUNT,
    ensures
        spec_deserialize(b) is None,
{
}

/// Encode a message into a fresh wire frame. Encoding a representable
/// message always succeeds and always fills exactly [`MSG_SIZE`] bytes;
/// a `None` would mean the frame bound cannot hold the message.
pub fn serialize(msg: &PubMessage) -> (r: Option<Vec<u8>>)
    ensures
        match r {
            Some(v) => v@ == spec_serialize(*msg) && v@.len() == MSG_SIZE,
            None => false,
        },
{
    let tag = pub_type_index(msg.pub_type);
    let iv: u32 = if msg.integral >= 0 {
        msg.integral as u32
    } else {
        (msg.integral as i32 + 65536) as u32
    };
    assert(iv == spec_i16_wire(msg.integral));
    let d: u32 = msg.decimal;
    let mut v: Vec<u8> = Vec::new();
    v.push(tag as u8);
    v.push(0u8);
    v.push(0u8);
    v.push(0u8);
    v.push((iv % 256) as u8);
    v.push((iv / 256) as u8);
    v.push((d % 256) as u8);
    v.push(((d / 256) % 256) as u8);
    v.push(((d / 65536) % 256) as u8);
    v.push((d / 16777216) as u8);
    assert(v@ =~= spec_serialize(*msg));
    Some(v)
}

/// Decode one wire frame. Fails exactly on a wrong-length frame or an
/// out-of-range kind tag, and never yields a partially filled message.
pub fn deserialize(msg: &[u8]) -> (r: Option<PubMessage>)
    ensures
        r == spec_deserialize(msg@),
{
    if msg.len() != MSG_SIZE {
        return None;
    }
    let tag: u32 = msg[0] as u32 + 256 * (msg[1] as u32) + 65536 * (msg[2] as u32) + 16777216 * (
    msg[3] as u32);
    if tag >= PUB_TYPE_COUNT as u32 {
        return None;
    }
    let pub_type = match pub_type_from_index(tag as usize) {
        Some(k) => k,
        None => {
            return None;
        },
    };
    let iv: u32 = msg[4] as u32 + 256 * (msg[5] as u32);
    let integral: i16 = if iv < 32768 {
        iv as i16
    } else {
        (iv as i32 - 65536) as i16
    };
    let decimal: u32 = msg[6] as u32 + 256 * (msg[7] as u32) + 65536 * (msg[8] as u32) + 16777216
        * (msg[9] as u32);
    Some(PubMessage { pub_type, integral, decimal })
}

} // verus!
