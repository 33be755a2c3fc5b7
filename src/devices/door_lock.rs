//! A door lock that can be locked and unlocked.
use vstd::prelude::*;
use crate::models::device::{apply_outcome, state_text, type_tag, Device, DeviceModel, DeviceState};
use crate::models::event::{DeviceError, Event, EventType};

verus! {

/// A door lock, unlocked when created.
#[derive(Debug)]
pub struct DoorLock {
    name: String,
    locked: bool,
}

impl View for DoorLock {
    type V = DeviceModel;

    closed spec fn view(&self) -> DeviceModel {
        DeviceModel { name: self.name@, state: DeviceState::DoorLock { locked: self.locked } }
    }
}

impl DoorLock {
    /// Creates a door lock with the given name, unlocked.
    pub fn new(name: &str) -> (r: DoorLock)
        ensures
            r@ == (DeviceModel { name: name@, state: DeviceState::DoorLock { locked: false } }),
    {
        DoorLock { name: name.to_owned(), locked: false }
    }

    pub fn get_name(&self) -> (r: &str)
        ensures
            r@ == self@.name,
    {
        self.name.as_str()
    }

    pub fn get_type(&self) -> (r: &str)
        ensures
            r@ == type_tag(self@.state),
    {
        "DoorLock"
    }

    pub fn get_state(&self) -> (r: String)
        ensures
            r@ == state_text(self@.state),
    {
        if self.locked {
            String::from_str("locked")
        } else {
            String::from_str("unlocked")
        }
    }

    /// Accepts `Lock` and `Unlock`; any other command is rejected.
    pub fn execute_command(&mut self, command: EventType) -> (r: Result<Event, DeviceError>)
        ensures
            apply_outcome(old(self)@, final(self)@, command, r),
    {
        match command {
            EventType::Lock => self.locked = true,
            EventType::Unlock => self.locked = false,
            _ => return Err(DeviceError::UnsupportedCommand),
        }
        let kind = String::from_str(self.get_type());
        Ok(Event::new(self.name.clone(), kind, command, Some(self.get_state())))
    }
}

impl Device for DoorLock {
    fn get_name(&self) -> &str {
        DoorLock::get_name(self)
    }

    fn get_type(&self) -> &str {
        DoorLock::get_type(self)
    }

    fn execute_command(&mut self, command: EventType) -> Result<Event, DeviceError> {
        DoorLock::execute_command(self, command)
    }

    fn get_state(&self) -> String {
        DoorLock::get_state(self)
    }
}

} // verus!
