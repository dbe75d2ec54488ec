//! State types of the event logger: states keyed by a device instance and
//! attribute, with a value that may be a number, on, off or unknown, and
//! timestamps in whole seconds since boot.
//!
//! A number is an IEEE-754 single, carried here as its bit pattern
//! (`f32::to_bits`).

use vstd::prelude::*;
use crate::clock::{instant_now, instant_as_secs};

verus! {

/// Something that happened to a state.
#[derive(Copy, Clone, Debug)]
pub enum Event {
    StateUpdate(State),
    StateReport(State),
}

/// A value of an entity at a point in time.
#[derive(Copy, Clone, Debug)]
pub struct State {
    pub timestamp: Timestamp,
    pub entity: Entity,
    pub value: Value,
}

impl State {
    /// A state of attribute `attr` of `dev` holding the number whose `f32`
    /// bit pattern is `value_bits`, stamped with the current time.
    pub fn new(dev: DeviceInstance, attr: Attribute, value_bits: u32) -> (s: State)
        ensures
            s.entity == (Entity { device_instance: dev, attr }),
            s.value == Value::Number(value_bits),
    {
        State {
            timestamp: Timestamp::now(),
            entity: Entity { device_instance: dev, attr: attr },
            value: Value::Number(value_bits),
        }
    }
}

/// Whole seconds since boot.
#[derive(Copy, Clone, Debug)]
pub struct Timestamp {
    epoch: usize,
}

impl View for Timestamp {
    type V = usize;

    /// The seconds held.
    closed spec fn view(&self) -> usize {
        self.epoch
    }
}

impl Timestamp {
    /// The current time in whole seconds since boot (truncated to `usize`).
    /// What it reads depends on the clock.
    pub fn now() -> Timestamp {
        let i = instant_now();
        let secs = instant_as_secs(&i);
        Timestamp { epoch: secs as usize }
    }

    /// The seconds held.
    pub fn epoch(&self) -> (e: usize)
        ensures
            e == self@,
    {
        self.epoch
    }
}

/// Identifies a state, e.g. the temperature of a climate sensor.
#[derive(Copy, Clone, Debug, PartialEq, Eq, Structural)]
pub struct Entity {
    pub device_instance: DeviceInstance,
    pub attr: Attribute,
}

impl Default for Entity {
    /// The `Unknown` attribute of the default device instance.
    fn default() -> (e: Entity)
        ensures
            e == (Entity {
                device_instance: DeviceInstance { device: Device::Forbidden, instance: 0 },
                attr: Attribute::Unknown,
            }),
    {
        Entity { device_instance: DeviceInstance::default(), attr: Attribute::Unknown }
    }
}

/// A device and which instance of it (e.g. `Tank 2`).
#[derive(Copy, Clone, Debug, PartialEq, Eq, Structural)]
pub struct DeviceInstance {
    pub device: Device,
    pub instance: u8,
}

impl Default for DeviceInstance {
    /// Instance 0 of `Forbidden`, the marker of unprogrammed flash.
    fn default() -> (d: DeviceInstance)
        ensures
            d == (DeviceInstance { device: Device::Forbidden, instance: 0 }),
    {
        DeviceInstance { device: Device::Forbidden, instance: 0 }
    }
}

impl DeviceInstance {
    /// Instance `instance` of `device`; instance 255 is not allowed.
    pub fn new(device: Device, instance: u8) -> (d: DeviceInstance)
        requires
            instance < 255,
        ensures
            d == (DeviceInstance { device, instance }),
    {
        DeviceInstance { device: device, instance: instance }
    }
}

/// Identifies a (physical) device, e.g. a `Gps`. `Forbidden` marks
/// unprogrammed NOR flash and is never an actual device.
#[derive(Copy, Clone, Debug, PartialEq, Eq, Structural)]
pub enum Device {
    Light,
    Switch,
    Tank,
    Climate,
    Gps,
    Button,
    Led,
    Forbidden,
}

/// Attributes of devices; each device has at most one of each.
#[derive(Copy, Clone, Debug, PartialEq, Eq, Structural)]
pub enum Attribute {
    Unknown,
    /// [V]
    Voltage,
    /// [A]
    Current,
    /// [W]
    Power,
    /// [Wh]
    Energy,
    /// [C]
    Temperature,
    /// [%]
    Humidity,
    /// [dBm]
    Rssi,
    /// [%]
    BatteryLevel,
    /// [%]
    TankLevel,
    /// [%]
    Brightness,
    /// [On/Off]
    Binary,
    /// [deg]
    Longitude,
    /// [deg]
    Latitude,
}

/// Value of an entity.
#[derive(Copy, Clone, Debug, PartialEq, Eq, Structural)]
pub enum Value {
    Unknown,
    /// A number, as the bit pattern of an `f32`.
    Number(u32),
    On,
    Off,
}

impl Default for Value {
    /// `Unknown`.
    fn default() -> (v: Value)
        ensures
            v == Value::Unknown,
    {
        Value::Unknown
    }
}

} // verus!
