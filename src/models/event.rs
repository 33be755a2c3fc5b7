//! Events: the record of one state change, and the commands that cause them.
use vstd::prelude::*;

verus! {

/// The closed set of commands that a device may be asked to perform.
#[derive(Clone, Copy, Debug, PartialEq, Eq, Structural)]
pub enum EventType {
    TurnOn,
    TurnOff,
    Lock,
    Unlock,
    SetTemp,
}

/// Why a command could not be carried out.
#[derive(Clone, Copy, Debug, PartialEq, Eq, Structural)]
pub enum DeviceError {
    /// No registered device has the requested name.
    DeviceNotFound,
    /// The device does not accept the command.
    UnsupportedCommand,
}

/// How an error reads to people, for a command aimed at `device_name`.
pub open spec fn error_text(e: DeviceError, device_name: Seq<char>) -> Seq<char> {
    match e {
        DeviceError::DeviceNotFound => "Device '"@ + device_name + "' not found"@,
        DeviceError::UnsupportedCommand => "Unsupported command for this device type"@,
    }
}

impl DeviceError {
    /// The error as a sentence, for a command aimed at `device_name`.
    pub fn describe(&self, device_name: &str) -> (r: String)
        ensures
            r@ == error_text(*self, device_name@),
    {
        match self {
            DeviceError::DeviceNotFound => String::from_str("Device '").concat(device_name).concat(
                "' not found",
            ),
            DeviceError::UnsupportedCommand => String::from_str(
                "Unsupported command for this device type",
            ),
        }
    }
}

/// An immutable record of one successful state change.
#[derive(Clone, Debug)]
pub struct Event {
    pub device_name: String,
    pub device_type: String,
    pub event_type: EventType,
    pub payload: Option<String>,
}

/// What an event says, as mathematical values.
pub struct EventView {
    pub device_name: Seq<char>,
    pub device_type: Seq<char>,
    pub event_type: EventType,
    pub payload: Option<Seq<char>>,
}

pub open spec fn payload_view(p: Option<String>) -> Option<Seq<char>> {
    match p {
        Some(s) => Some(s@),
        None => None,
    }
}

impl View for Event {
    type V = EventView;

    open spec fn view(&self) -> EventView {
        EventView {
            device_name: self.device_name@,
            device_type: self.device_type@,
            event_type: self.event_type,
            payload: payload_view(self.payload),
        }
    }
}

/// The one-line account of an event that sinks write:
/// `Device '<name>' (<type>) state: <payload>`, with "unknown" for no payload.
pub open spec fn line_text(e: EventView) -> Seq<char> {
    "Device '"@ + e.device_name + "' ("@ + e.device_type + ") state: "@ + match e.payload {
        Some(p) => p,
        None => "unknown"@,
    }
}

impl Event {
    /// The event as one line of text, for display and logging.
    pub fn log_line(&self) -> (r: String)
        ensures
            r@ == line_text(self@),
    {
        let state = match &self.payload {
            Some(p) => p.as_str(),
            None => "unknown",
        };
        String::from_str("Device '").concat(self.device_name.as_str()).concat("' (").concat(
            self.device_type.as_str(),
        ).concat(") state: ").concat(state)
    }

    /// Builds an event from its four parts.
    pub fn new(
        device_name: String,
        device_type: String,
        event_type: EventType,
        payload: Option<String>,
    ) -> (r: Event)
        ensures
            r@ == (EventView {
                device_name: device_name@,
                device_type: device_type@,
                event_type,
                payload: payload_view(payload),
            }),
    {
        Event { device_name, device_type, event_type, payload }
    }
}

} // verus!
