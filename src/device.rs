//! The device model: its status state machine, its capability snapshot and the
//! points that it plays.
use vstd::prelude::*;

use crate::protocol::{
    BEGIN, CLEAR_EMERGENCY_STOP, DATA, EMERGENCY_STOP, PING, POINT_RATE, PREPARE_STREAM, STOP,
};

verus! {

/// The playback state that the device reports in each of its responses.
#[derive(Clone, Copy, Debug, PartialEq, Eq, Structural, Hash)]
pub enum DeviceStatus {
    Idle,
    Preparing,
    Playing,
    /// Left only by a `ClearEmergencyStop` that the device accepts.
    EmergencyStopped,
}

/// A capability and status snapshot of a DAC, replaced whole after each validated response.
#[derive(Clone, Copy, Debug, PartialEq, Eq, Structural, Hash)]
pub struct Dac {
    /// Firmware version
    pub sw_revision: u32,
    /// The maximum number of points that the DAC may buffer at once.
    pub buffer_capacity: u32,
    /// The maximum rate at which the DAC may process buffered points.
    pub max_point_rate: u32,
    /// Whether the DAC is ready to receive a frame or not.
    pub status: DeviceStatus,
}

/// A DAC along with its ID.
///
/// The snapshot's fields can be read through the accessor methods as though this were a `Dac`.
#[derive(Clone, Copy, Debug, PartialEq, Eq, Structural, Hash)]
pub struct Addressed {
    /// This may be used to distinguish between multiple DACs broadcasting on a network.
    pub id: u32,
    /// The state of the DAC itself.
    pub dac: Dac,
}

/// One point of a frame: a position and a colour.
#[derive(Clone, Copy, Debug, PartialEq, Eq, Structural, Hash)]
pub struct Point {
    pub x: i16,
    pub y: i16,
    pub r: u16,
    pub g: u16,
    pub b: u16,
}

/// The status that a device reports after accepting `command` in status `prior`,
/// or `None` where the command is not accepted from that status.
pub open spec fn next_status(command: u8, prior: DeviceStatus) -> Option<DeviceStatus> {
    let streaming = prior == DeviceStatus::Preparing || prior == DeviceStatus::Playing;
    if command == PREPARE_STREAM {
        if prior == DeviceStatus::Idle { Some(DeviceStatus::Preparing) } else { None }
    } else if command == BEGIN {
        if prior == DeviceStatus::Preparing { Some(DeviceStatus::Playing) } else { None }
    } else if command == STOP {
        if streaming { Some(DeviceStatus::Idle) } else { None }
    } else if command == EMERGENCY_STOP {
        Some(DeviceStatus::EmergencyStopped)
    } else if command == CLEAR_EMERGENCY_STOP {
        if prior == DeviceStatus::EmergencyStopped { Some(DeviceStatus::Idle) } else { None }
    } else if command == POINT_RATE || command == DATA {
        if streaming { Some(prior) } else { None }
    } else if command == PING {
        Some(prior)
    } else {
        None
    }
}

/// Looks up the transition table of the device's state machine.
pub fn expected_status(command: u8, prior: DeviceStatus) -> (r: Option<DeviceStatus>)
    ensures
        r == next_status(command, prior),
{
    let streaming = prior == DeviceStatus::Preparing || prior == DeviceStatus::Playing;
    if command == PREPARE_STREAM {
        if prior == DeviceStatus::Idle { Some(DeviceStatus::Preparing) } else { None }
    } else if command == BEGIN {
        if prior == DeviceStatus::Preparing { Some(DeviceStatus::Playing) } else { None }
    } else if command == STOP {
        if streaming { Some(DeviceStatus::Idle) } else { None }
    } else if command == EMERGENCY_STOP {
        Some(DeviceStatus::EmergencyStopped)
    } else if command == CLEAR_EMERGENCY_STOP {
        if prior == DeviceStatus::EmergencyStopped { Some(DeviceStatus::Idle) } else { None }
    } else if command == POINT_RATE || command == DATA {
        if streaming { Some(prior) } else { None }
    } else if command == PING {
        Some(prior)
    } else {
        None
    }
}

impl Addressed {
    /// Firmware version of the addressed DAC.
    pub fn sw_revision(&self) -> (r: u32)
        ensures
            r == self.dac.sw_revision,
    {
        self.dac.sw_revision
    }

    /// The maximum number of points that the addressed DAC may buffer at once.
    pub fn buffer_capacity(&self) -> (r: u32)
        ensures
            r == self.dac.buffer_capacity,
    {
        self.dac.buffer_capacity
    }

    /// The maximum rate at which the addressed DAC may process buffered points.
    pub fn max_point_rate(&self) -> (r: u32)
        ensures
            r == self.dac.max_point_rate,
    {
        self.dac.max_point_rate
    }

    /// The last status that the addressed DAC reported.
    pub fn status(&self) -> (r: DeviceStatus)
        ensures
            r == self.dac.status,
    {
        self.dac.status
    }
}

/// Two addressed DACs are equal exactly when their identifiers are equal and every
/// field of their snapshots is equal.
pub proof fn lemma_addressed_equality(a: Addressed, b: Addressed)
    ensures
        (a == b) <==> (a.id == b.id && a.dac.sw_revision == b.dac.sw_revision
            && a.dac.buffer_capacity == b.dac.buffer_capacity && a.dac.max_point_rate
            == b.dac.max_point_rate && a.dac.status == b.dac.status),
{
}

} // verus!
