use pulsehome::devices::door_lock::DoorLock;
use pulsehome::devices::light::Light;
use pulsehome::devices::thermostat::Thermostat;
use pulsehome::devices::SmartDevice;
use pulsehome::models::device::Device;
use pulsehome::models::event::{DeviceError, Event, EventType};

#[test]
fn door_initial_state_unlocked() {
    let lock = DoorLock::new("Front Door");
    assert_eq!(lock.get_name(), "Front Door");
    assert_eq!(lock.get_type(), "DoorLock");
    assert_eq!(lock.get_state(), "unlocked");
}

#[test]
fn door_lock_unlock() {
    let mut lock = DoorLock::new("Back Door");

    let lock_event = lock.execute_command(EventType::Lock).unwrap();
    assert_eq!(lock.get_state(), "locked");
    assert_eq!(lock_event.payload.unwrap(), "locked");

    let unlock_event = lock.execute_command(EventType::Unlock).unwrap();
    assert_eq!(lock.get_state(), "unlocked");
    assert_eq!(unlock_event.payload.unwrap(), "unlocked");
}

#[test]
fn door_invalid_command() {
    let mut lock = DoorLock::new("Test Door");
    let result = lock.execute_command(EventType::SetTemp);
    assert!(result.is_err());
}

#[test]
fn light_initial_state_off() {
    let light = Light::new("Bedroom Light");
    assert_eq!(light.get_name(), "Bedroom Light");
    assert_eq!(light.get_type(), "Light");
    assert_eq!(light.get_state(), "off");
}

#[test]
fn light_turn_on() {
    let mut light = Light::new("Living Room Light");
    let event = light.execute_command(EventType::TurnOn).unwrap();
    assert_eq!(light.get_state(), "on");
    assert_eq!(event.device_name, "Living Room Light");
    assert_eq!(event.event_type, EventType::TurnOn);
    assert_eq!(event.payload.unwrap(), "on");
}

#[test]
fn light_turn_off() {
    let mut light = Light::new("Living Room Light");
    light.execute_command(EventType::TurnOn).unwrap();
    let event = light.execute_command(EventType::TurnOff).unwrap();
    assert_eq!(light.get_state(), "off");
    assert_eq!(event.event_type, EventType::TurnOff);
    assert_eq!(event.payload.unwrap(), "off");
}

#[test]
fn light_invalid_command() {
    let mut light = Light::new("Test Light");
    let result = light.execute_command(EventType::SetTemp);
    assert!(result.is_err());
}

#[test]
fn thermostat_initial_temperature() {
    let thermo = Thermostat::new("Bedroom Thermostat", 22);
    assert_eq!(thermo.get_name(), "Bedroom Thermostat");
    assert_eq!(thermo.get_type(), "Thermostat");
    assert_eq!(thermo.get_state(), "22°C");
}

#[test]
fn thermostat_set_temperature() {
    let mut thermo = Thermostat::new("Living Room Thermostat", 20);
    let event = thermo.execute_command(EventType::SetTemp).unwrap();
    assert_eq!(thermo.get_state(), "21°C");
    assert_eq!(event.device_name, "Living Room Thermostat");
    assert_eq!(event.event_type, EventType::SetTemp);
    assert_eq!(event.payload.unwrap(), "21°C");
}

#[test]
fn thermostat_invalid_command() {
    let mut thermo = Thermostat::new("Test Thermo", 20);
    let result = thermo.execute_command(EventType::TurnOn);
    assert!(result.is_err());
}

/// A device written outside the library, through the `Device` capability.
struct DummyDevice {
    name: String,
    device_type: String,
    state: String,
}

impl DummyDevice {
    fn new(name: &str, device_type: &str) -> Self {
        Self { name: name.to_string(), device_type: device_type.to_string(), state: "off".to_string() }
    }
}

impl Device for DummyDevice {
    fn get_name(&self) -> &str {
        &self.name
    }

    fn get_type(&self) -> &str {
        &self.device_type
    }

    fn execute_command(&mut self, command: EventType) -> Result<Event, DeviceError> {
        match command {
            EventType::TurnOn => self.state = "on".to_string(),
            EventType::TurnOff => self.state = "off".to_string(),
            _ => return Err(DeviceError::UnsupportedCommand),
        }
        Ok(Event::new(self.name.clone(), self.device_type.clone(), command, Some(self.state.clone())))
    }

    fn get_state(&self) -> String {
        self.state.clone()
    }
}

#[test]
fn dummy_device_turn_on() {
    let mut device = DummyDevice::new("TestLight", "Light");
    let event = device.execute_command(EventType::TurnOn).unwrap();
    assert_eq!(device.get_state(), "on");
    assert_eq!(event.device_name, "TestLight");
    assert_eq!(event.event_type, EventType::TurnOn);
    assert_eq!(event.payload.unwrap(), "on");
}

#[test]
fn dummy_device_invalid_command() {
    let mut device = DummyDevice::new("TestDevice", "Generic");
    let result = device.execute_command(EventType::SetTemp);
    assert!(result.is_err());
}

#[test]
fn light_on_off_idempotent() {
    let mut light = Light::new("Hall");
    light.execute_command(EventType::TurnOn).unwrap();
    assert_eq!(light.get_state(), "on");
    light.execute_command(EventType::TurnOn).unwrap();
    assert_eq!(light.get_state(), "on");
    light.execute_command(EventType::TurnOff).unwrap();
    assert_eq!(light.get_state(), "off");
    light.execute_command(EventType::TurnOff).unwrap();
    assert_eq!(light.get_state(), "off");
}

#[test]
fn lock_idempotent_and_inverse() {
    let mut lock = DoorLock::new("Gate");
    lock.execute_command(EventType::Lock).unwrap();
    lock.execute_command(EventType::Lock).unwrap();
    assert_eq!(lock.get_state(), "locked");
    lock.execute_command(EventType::Unlock).unwrap();
    lock.execute_command(EventType::Unlock).unwrap();
    assert_eq!(lock.get_state(), "unlocked");
}

#[test]
fn thermostat_steps_k_times() {
    let mut thermo = Thermostat::new("Attic", -3);
    for _ in 0..5 {
        thermo.execute_command(EventType::SetTemp).unwrap();
    }
    assert_eq!(thermo.get_state(), "2°C");
}

#[test]
fn thermostat_negative_and_extreme_values() {
    assert_eq!(Thermostat::new("Cellar", -15).get_state(), "-15°C");
    assert_eq!(Thermostat::new("Cold", i32::MIN).get_state(), "-2147483648°C");
    let mut hot = Thermostat::new("Hot", i32::MAX);
    let event = hot.execute_command(EventType::SetTemp).unwrap();
    assert_eq!(event.payload.unwrap(), "2147483647°C");
    assert_eq!(hot.get_state(), "2147483647°C");
}

#[test]
fn rejected_commands_keep_state() {
    let mut light = Light::new("L");
    for c in [EventType::Lock, EventType::Unlock, EventType::SetTemp] {
        assert_eq!(light.execute_command(c).unwrap_err(), DeviceError::UnsupportedCommand);
        assert_eq!(light.get_state(), "off");
    }
    let mut lock = DoorLock::new("D");
    lock.execute_command(EventType::Lock).unwrap();
    for c in [EventType::TurnOn, EventType::TurnOff, EventType::SetTemp] {
        assert_eq!(lock.execute_command(c).unwrap_err(), DeviceError::UnsupportedCommand);
        assert_eq!(lock.get_state(), "locked");
    }
    let mut thermo = Thermostat::new("T", 19);
    for c in [EventType::TurnOn, EventType::TurnOff, EventType::Lock, EventType::Unlock] {
        assert_eq!(thermo.execute_command(c).unwrap_err(), DeviceError::UnsupportedCommand);
        assert_eq!(thermo.get_state(), "19°C");
    }
}

#[test]
fn smart_device_forwards_to_variant() {
    let mut d = SmartDevice::Thermostat(Thermostat::new("Den", 7));
    assert_eq!(d.get_name(), "Den");
    assert_eq!(d.get_type(), "Thermostat");
    let event = d.execute_command(EventType::SetTemp).unwrap();
    assert_eq!(event.device_type, "Thermostat");
    assert_eq!(d.get_state(), "8°C");
    assert!(d.execute_command(EventType::Lock).is_err());
}
