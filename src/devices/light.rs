//! A light that can be switched on and off.
use vstd::prelude::*;
use crate::models::device::{apply_outcome, state_text, type_tag, Device, DeviceModel, DeviceState};
use crate::models::event::{DeviceError, Event, EventType};

verus! {

/// A light, off when created.
#[derive(Debug)]
pub struct Light {
    name: String,
    state: bool,
}

impl View for Light {
    type V = DeviceModel;

    closed spec fn view(&self) -> DeviceModel {
        DeviceModel { name: self.name@, state: DeviceState::Light { on: self.state } }
    }
}

impl Light {
    /// Creates a light with the given name, switched off.
    pub fn new(name: &str) -> (r: Light)
        ensures
            r@ == (DeviceModel { name: name@, state: DeviceState::Light { on: false } }),
    {
        Light { name: name.to_owned(), state: false }
    }

    pub fn get_name(&self) -> (r: &str)
        ensures
            r@ == self@.name,
    {
        self.name.as_str()
    }

    pub fn get_type(&self) -> (r: &str)
        ensures
            r@ == type_tag(self@.state),
    {
        "Light"
    }

    pub fn get_state(&self) -> (r: String)
        ensures
            r@ == state_text(self@.state),
    {
        if self.state {
            String::from_str("on")
        } else {
            String::from_str("off")
        }
    }

    /// Accepts `TurnOn` and `TurnOff`; any other command is rejected.
    pub fn execute_command(&mut self, command: EventType) -> (r: Result<Event, DeviceError>)
        ensures
            apply_outcome(old(self)@, final(self)@, command, r),
    {
        match command {
            EventType::TurnOn => self.state = true,
            EventType::TurnOff => self.state = false,
            _ => return Err(DeviceError::UnsupportedCommand),
        }
        let kind = String::from_str(self.get_type());
        Ok(Event::new(self.name.clone(), kind, command, Some(self.get_state())))
    }
}

impl Device for Light {
    fn get_name(&self) -> &str {
        Light::get_name(self)
    }

    fn get_type(&self) -> &str {
        Light::get_type(self)
    }

    fn execute_command(&mut self, command: EventType) -> Result<Event, DeviceError> {
        Light::execute_command(self, command)
    }

    fn get_state(&self) -> String {
        Light::get_state(self)
    }
}

} // verus!
