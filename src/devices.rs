//! The device variants.
pub mod door_lock;
pub mod light;
pub mod thermostat;

use vstd::prelude::*;
use crate::devices::door_lock::DoorLock;
use crate::devices::light::Light;
use crate::devices::thermostat::Thermostat;
use crate::models::device::{apply_outcome, state_text, type_tag, Device, DeviceModel};
use crate::models::event::{DeviceError, Event, EventType};

verus! {

/// Any one of the device variants, as the hub holds them.
#[derive(Debug)]
pub enum SmartDevice {
    Light(Light),
    Thermostat(Thermostat),
    DoorLock(DoorLock),
}

impl View for SmartDevice {
    type V = DeviceModel;

    open spec fn view(&self) -> DeviceModel {
        match self {
            SmartDevice::Light(d) => d@,
            SmartDevice::Thermostat(d) => d@,
            SmartDevice::DoorLock(d) => d@,
        }
    }
}

impl SmartDevice {
    pub fn get_name(&self) -> (r: &str)
        ensures
            r@ == self@.name,
    {
        match self {
            SmartDevice::Light(d) => d.get_name(),
            SmartDevice::Thermostat(d) => d.get_name(),
            SmartDevice::DoorLock(d) => d.get_name(),
        }
    }

    pub fn get_type(&self) -> (r: &str)
        ensures
            r@ == type_tag(self@.state),
    {
        match self {
            SmartDevice::Light(d) => d.get_type(),
            SmartDevice::Thermostat(d) => d.get_type(),
            SmartDevice::DoorLock(d) => d.get_type(),
        }
    }

    pub fn get_state(&self) -> (r: String)
        ensures
            r@ == state_text(self@.state),
    {
        match self {
            SmartDevice::Light(d) => d.get_state(),
            SmartDevice::Thermostat(d) => d.get_state(),
            SmartDevice::DoorLock(d) => d.get_state(),
        }
    }

    /// Hands the command to the variant inside.
    pub fn execute_command(&mut self, command: EventType) -> (r: Result<Event, DeviceError>)
        ensures
            apply_outcome(old(self)@, final(self)@, command, r),
    {
        match self {
            SmartDevice::Light(d) => d.execute_command(command),
            SmartDevice::Thermostat(d) => d.execute_command(command),
            SmartDevice::DoorLock(d) => d.execute_command(command),
        }
    }
}

impl Device for SmartDevice {
    fn get_name(&self) -> &str {
        SmartDevice::get_name(self)
    }

    fn get_type(&self) -> &str {
        SmartDevice::get_type(self)
    }

    fn execute_command(&mut self, command: EventType) -> Result<Event, DeviceError> {
        SmartDevice::execute_command(self, command)
    }

    fn get_state(&self) -> String {
        SmartDevice::get_state(self)
    }
}

} // verus!
