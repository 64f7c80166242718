//! Decoding of the raw output registers of the L3G gyroscope and the LSM303
//! accelerometer.

use vstd::prelude::*;

use byteorder::{ByteOrder, LittleEndian};

verus! {

/// One reading per axis.
#[derive(Clone, Copy, Debug, PartialEq, Eq, Structural)]
pub struct OrientationData<T> {
    pub x: T,
    pub y: T,
    pub z: T,
}

/// Raw accelerometer counts.
pub type AccelerometerData = OrientationData<i16>;

/// The signed 16 bit value whose little-endian bytes are `low`, `high`.
pub open spec fn le_i16(low: u8, high: u8) -> int {
    let unsigned: int = (low as int) + 256 * (high as int);
    if unsigned >= 0x8000 {
        unsigned - 0x10000
    } else {
        unsigned
    }
}

/// The three little-endian signed values of a six byte output block.
pub open spec fn block_counts(block: Seq<u8>) -> OrientationData<int> {
    OrientationData {
        x: le_i16(block[0], block[1]),
        y: le_i16(block[2], block[3]),
        z: le_i16(block[4], block[5]),
    }
}

/// The counts of a reading, as mathematical integers.
pub open spec fn counts_of(data: OrientationData<i16>) -> OrientationData<int> {
    OrientationData { x: data.x as int, y: data.y as int, z: data.z as int }
}

/// `byteorder::LittleEndian::read_i16`: the first two bytes read as a
/// little-endian signed 16 bit integer. It panics on fewer than two bytes,
/// which the precondition rules out.
#[verifier::external_body]
fn read_i16_le(buf: &[u8]) -> (value: i16)
    requires
        buf@.len() >= 2,
    ensures
        value as int == le_i16(buf@[0], buf@[1]),
{
    LittleEndian::read_i16(buf)
}

/// The signed value of a low and a high output register of the gyroscope.
fn combine_gyroscope_bytes(low: u8, high: u8) -> (value: i16)
    ensures
        value as int == le_i16(low, high),
{
    let value: i16 = ((high as i16) << 8u32) | (low as i16);
    let ghost combined: u16 = (low as u16) | ((high as u16) << 8u32);
    assert(combined as int == (low as int) + 256 * (high as int)) by (bit_vector)
        requires
            combined == (low as u16) | ((high as u16) << 8u32),
    ;
    assert(value == combined as i16) by (bit_vector)
        requires
            value == ((high as i16) << 8u32) | (low as i16),
            combined == (low as u16) | ((high as u16) << 8u32),
    ;
    assert((combined as int) >= 0x8000 ==> (combined as i16) as int == (combined as int) - 0x10000)
        by (bit_vector);
    assert((combined as int) < 0x8000 ==> (combined as i16) as int == combined as int)
        by (bit_vector);
    value
}

/// Angular rate counts from the six bytes read from the gyroscope's output
/// registers, low byte first for each of x, y and z.
pub fn gyroscope_counts(results: &[u8]) -> (counts: OrientationData<i16>)
    requires
        results@.len() >= 6,
    ensures
        counts_of(counts) == block_counts(results@),
{
    let x: i16 = combine_gyroscope_bytes(results[0], results[1]);
    let y: i16 = combine_gyroscope_bytes(results[2], results[3]);
    let z: i16 = combine_gyroscope_bytes(results[4], results[5]);
    OrientationData { x, y, z }
}

/// Acceleration counts from the six bytes read from the accelerometer's
/// output registers, each axis a little-endian signed value.
pub fn accelerometer_counts(buf: &[u8]) -> (counts: AccelerometerData)
    requires
        buf@.len() >= 6,
    ensures
        counts_of(counts) == block_counts(buf@),
{
    let x: i16 = read_i16_le(&[buf[0], buf[1]]);
    let y: i16 = read_i16_le(&[buf[2], buf[3]]);
    let z: i16 = read_i16_le(&[buf[4], buf[5]]);
    OrientationData { x, y, z }
}

/// The left-justified 12 bit value held in a low and a high register.
pub open spec fn left_justified_12(low: u8, high: u8) -> int {
    (low as int + 256 * high as int) / 16
}

fn combine_12_bit(low: u8, high: u8) -> (value: i16)
    ensures
        value as int == left_justified_12(low, high),
        0 <= value < 4096,
{
    let combined: u16 = (low as u16) | ((high as u16) << 8u32);
    assert(combined as int == (low as int) + 256 * (high as int)) by (bit_vector)
        requires
            combined == (low as u16) | ((high as u16) << 8u32),
    ;
    let shifted: u16 = combined >> 4u32;
    assert(shifted == combined / 16) by (bit_vector)
        requires
            shifted == combined >> 4u32,
    ;
    shifted as i16
}

/// Acceleration counts of an accelerometer that left-justifies 12 bit
/// samples: each little-endian pair shifted right by four bits.
pub fn accelerometer_counts_12_bit(results: &[u8]) -> (counts: AccelerometerData)
    requires
        results@.len() >= 6,
    ensures
        counts.x as int == left_justified_12(results@[0], results@[1]),
        counts.y as int == left_justified_12(results@[2], results@[3]),
        counts.z as int == left_justified_12(results@[4], results@[5]),
{
    let x: i16 = combine_12_bit(results[0], results[1]);
    let y: i16 = combine_12_bit(results[2], results[3]);
    let z: i16 = combine_12_bit(results[4], results[5]);
    OrientationData { x, y, z }
}

/// The low byte of a signed 16 bit value's little-endian encoding.
pub open spec fn low_byte(value: i16) -> u8 {
    (value as u16 & 0xff) as u8
}

/// The high byte of a signed 16 bit value's little-endian encoding.
pub open spec fn high_byte(value: i16) -> u8 {
    ((value as u16) >> 8u16) as u8
}

/// Decoding undoes the sensors' little-endian encoding: the bytes of any
/// value read back as that value.
pub proof fn lemma_le_i16_round_trip(value: i16)
    ensures
        le_i16(low_byte(value), high_byte(value)) == value as int,
{
    let u: u16 = value as u16;
    assert(((u & 0xff) as u8 as int) + 256 * ((u >> 8u16) as u8 as int) == u as int)
        by (bit_vector);
    assert((u as int) >= 0x8000 ==> (u as int) - 0x10000 == value as int) by (bit_vector)
        requires
            u == value as u16,
    ;
    assert((u as int) < 0x8000 ==> (u as int) == value as int) by (bit_vector)
        requires
            u == value as u16,
    ;
}

/// The gyroscope and the accelerometer read the same six bytes as the same
/// counts.
pub proof fn lemma_gyroscope_and_accelerometer_agree(
    block: Seq<u8>,
    gyro: OrientationData<i16>,
    accel: AccelerometerData,
)
    requires
        block.len() >= 6,
        counts_of(gyro) == block_counts(block),
        counts_of(accel) == block_counts(block),
    ensures
        gyro == accel,
{
}

} // verus!
