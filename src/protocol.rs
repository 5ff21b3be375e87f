//! The wire format: command codes, how each command is laid out in bytes, and how a
//! response is read back.
use vstd::prelude::*;

use crate::device::{Dac, DeviceStatus, Point};

verus! {

pub const PREPARE_STREAM: u8 = 0x70;
pub const BEGIN: u8 = 0x62;
pub const POINT_RATE: u8 = 0x71;
pub const DATA: u8 = 0x64;
pub const STOP: u8 = 0x73;
pub const EMERGENCY_STOP: u8 = 0x00;
pub const CLEAR_EMERGENCY_STOP: u8 = 0x63;
pub const PING: u8 = 0x3f;

/// First byte of a response by which the device accepts the command.
pub const ACK: u8 = 0x61;

/// Length in bytes of every response: acknowledgement, command code, status code,
/// then revision, buffer capacity and maximum point rate, four bytes each.
pub const RESPONSE_LEN: usize = 15;

/// Parameters of the command that starts playback.
#[derive(Clone, Copy, Debug, PartialEq, Eq, Structural, Hash)]
pub struct Begin {
    /// Points that must be buffered before the device starts to play.
    pub low_water_mark: u16,
    /// Points played per second.
    pub point_rate: u32,
}

/// Parameter of the command that changes the point rate.
#[derive(Clone, Copy, Debug, PartialEq, Eq, Structural, Hash)]
pub struct PointRate(pub u32);

/// A response as the device sent it, once its layout has been checked.
#[derive(Clone, Copy, Debug, PartialEq, Eq, Structural)]
pub struct Response {
    /// Whether the device accepted the command.
    pub accepted: bool,
    /// Code of the command that this response answers.
    pub command: u8,
    /// The device's snapshot after that command.
    pub dac: Dac,
}

pub open spec fn le16(v: u16) -> Seq<u8> {
    seq![(v % 256) as u8, (v / 256) as u8]
}

pub open spec fn le32(v: u32) -> Seq<u8> {
    seq![
        (v % 256) as u8,
        ((v / 256) % 256) as u8,
        ((v / 65536) % 256) as u8,
        (v / 16777216) as u8,
    ]
}

/// The unsigned value with the same 16 bits as `v` in two's complement.
pub open spec fn twos16(v: i16) -> u16 {
    if v < 0 {
        (v + 65536) as u16
    } else {
        v as u16
    }
}

/// A point on the wire: x, y, red, green, blue, two bytes each.
pub open spec fn point_bytes(p: Point) -> Seq<u8> {
    le16(twos16(p.x)) + le16(twos16(p.y)) + le16(p.r) + le16(p.g) + le16(p.b)
}

/// The points of `ps` on the wire, one after the other.
pub open spec fn points_bytes(ps: Seq<Point>) -> Seq<u8>
    decreases ps.len(),
{
    if ps.len() == 0 {
        Seq::empty()
    } else {
        points_bytes(ps.drop_last()) + point_bytes(ps.last())
    }
}

/// The four bytes of `b` from `i` on, read as a little-endian integer.
pub open spec fn le32_at(b: Seq<u8>, i: int) -> u32 {
    (b[i] + 256 * b[i + 1] + 65536 * b[i + 2] + 16777216 * b[i + 3]) as u32
}

pub open spec fn status_of_code(c: u8) -> Option<DeviceStatus> {
    if c == 0 {
        Some(DeviceStatus::Idle)
    } else if c == 1 {
        Some(DeviceStatus::Preparing)
    } else if c == 2 {
        Some(DeviceStatus::Playing)
    } else if c == 3 {
        Some(DeviceStatus::EmergencyStopped)
    } else {
        None
    }
}

/// What a response's bytes say, or `None` where they are not a response.
pub open spec fn parse_response(b: Seq<u8>) -> Option<Response> {
    if b.len() != RESPONSE_LEN || status_of_code(b[2]) is None {
        None
    } else {
        Some(
            Response {
                accepted: b[0] == ACK,
                command: b[1],
                dac: Dac {
                    sw_revision: le32_at(b, 3),
                    buffer_capacity: le32_at(b, 7),
                    max_point_rate: le32_at(b, 11),
                    status: status_of_code(b[2]).unwrap(),
                },
            },
        )
    }
}

/// Appends `v` in little-endian order.
pub fn push_le16(bytes: &mut Vec<u8>, v: u16)
    ensures
        final(bytes)@ == old(bytes)@ + le16(v),
{
    bytes.push((v % 256) as u8);
    bytes.push((v / 256) as u8);
    assert(final(bytes)@ =~= old(bytes)@ + le16(v));
}

/// Appends `v` in little-endian order.
pub fn push_le32(bytes: &mut Vec<u8>, v: u32)
    ensures
        final(bytes)@ == old(bytes)@ + le32(v),
{
    bytes.push((v % 256) as u8);
    bytes.push(((v / 256) % 256) as u8);
    bytes.push(((v / 65536) % 256) as u8);
    bytes.push((v / 16777216) as u8);
    assert(final(bytes)@ =~= old(bytes)@ + le32(v));
}

fn twos_complement(v: i16) -> (r: u16)
    ensures
        r == twos16(v),
{
    if v < 0 {
        (v as i32 + 65536) as u16
    } else {
        v as u16
    }
}

/// Appends the wire form of one point.
pub fn push_point(bytes: &mut Vec<u8>, p: &Point)
    ensures
        final(bytes)@ == old(bytes)@ + point_bytes(*p),
{
    push_le16(bytes, twos_complement(p.x));
    push_le16(bytes, twos_complement(p.y));
    push_le16(bytes, p.r);
    push_le16(bytes, p.g);
    push_le16(bytes, p.b);
    assert(final(bytes)@ =~= old(bytes)@ + point_bytes(*p));
}

fn read_le32(b: &[u8], i: usize) -> (r: u32)
    requires
        i + 4 <= b@.len(),
    ensures
        r == le32_at(b@, i as int),
{
    let v: u64 = b[i] as u64 + 256 * (b[i + 1] as u64) + 65536 * (b[i + 2] as u64) + 16777216 * (
    b[i + 3] as u64);
    v as u32
}

fn status_from_code(c: u8) -> (r: Option<DeviceStatus>)
    ensures
        r == status_of_code(c),
{
    if c == 0 {
        Some(DeviceStatus::Idle)
    } else if c == 1 {
        Some(DeviceStatus::Preparing)
    } else if c == 2 {
        Some(DeviceStatus::Playing)
    } else if c == 3 {
        Some(DeviceStatus::EmergencyStopped)
    } else {
        None
    }
}

/// Reads a response from its bytes; `None` where its length or status code is wrong.
pub fn decode_response(b: &[u8]) -> (r: Option<Response>)
    ensures
        r == parse_response(b@),
{
    if b.len() != RESPONSE_LEN {
        return None;
    }
    match status_from_code(b[2]) {
        None => None,
        Some(status) => Some(
            Response {
                accepted: b[0] == ACK,
                command: b[1],
                dac: Dac {
                    sw_revision: read_le32(b, 3),
                    buffer_capacity: read_le32(b, 7),
                    max_point_rate: read_le32(b, 11),
                    status,
                },
            },
        ),
    }
}

} // verus!
