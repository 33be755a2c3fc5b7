//! A thermostat whose target temperature steps up by one degree per command.
use vstd::prelude::*;
use crate::models::device::{
    apply_outcome, decimal_text, state_text, type_tag, Device, DeviceModel, DeviceState,
};
use crate::models::event::{DeviceError, Event, EventType};

verus! {

/// The temperature a thermostat starts at when none is given.
pub const DEFAULT_TEMPERATURE: i32 = 22;

/// Relies on i32's `Display` (through `to_string`): the value in base ten,
/// with a leading '-' when negative.
#[verifier::external_body]
fn decimal(n: i32) -> (r: String)
    ensures
        r@ == decimal_text(n as int),
{
    n.to_string()
}

/// A thermostat holding a temperature in whole degrees Celsius.
#[derive(Debug)]
pub struct Thermostat {
    name: String,
    temperature: i32,
}

impl View for Thermostat {
    type V = DeviceModel;

    closed spec fn view(&self) -> DeviceModel {
        DeviceModel {
            name: self.name@,
            state: DeviceState::Thermostat { temperature: self.temperature as int },
        }
    }
}

impl Thermostat {
    /// Creates a thermostat with the given name, set to `initial_temp`.
    pub fn new(name: &str, initial_temp: i32) -> (r: Thermostat)
        ensures
            r@ == (DeviceModel {
                name: name@,
                state: DeviceState::Thermostat { temperature: initial_temp as int },
            }),
    {
        Thermostat { name: name.to_owned(), temperature: initial_temp }
    }

    pub fn get_name(&self) -> (r: &str)
        ensures
            r@ == self@.name,
    {
        self.name.as_str()
    }

    pub fn get_type(&self) -> (r: &str)
        ensures
            r@ == type_tag(self@.state),
    {
        "Thermostat"
    }

    pub fn get_state(&self) -> (r: String)
        ensures
            r@ == state_text(self@.state),
    {
        decimal(self.temperature).concat("°C")
    }

    /// Accepts only `SetTemp`, which raises the temperature by one degree
    /// (it stays put at the largest value an `i32` holds).
    pub fn execute_command(&mut self, command: EventType) -> (r: Result<Event, DeviceError>)
        ensures
            apply_outcome(old(self)@, final(self)@, command, r),
    {
        match command {
            EventType::SetTemp => {
                if self.temperature < i32::MAX {
                    self.temperature = self.temperature + 1;
                }
            },
            _ => return Err(DeviceError::UnsupportedCommand),
        }
        let kind = String::from_str(self.get_type());
        Ok(Event::new(self.name.clone(), kind, command, Some(self.get_state())))
    }
}

impl Device for Thermostat {
    fn get_name(&self) -> &str {
        Thermostat::get_name(self)
    }

    fn get_type(&self) -> &str {
        Thermostat::get_type(self)
    }

    fn execute_command(&mut self, command: EventType) -> Result<Event, DeviceError> {
        Thermostat::execute_command(self, command)
    }

    fn get_state(&self) -> String {
        Thermostat::get_state(self)
    }
}

} // verus!
