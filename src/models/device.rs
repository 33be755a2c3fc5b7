//! The device capability, and the mathematical model that every device
//! variant is specified against.
use vstd::prelude::*;
use crate::models::event::{DeviceError, Event, EventType, EventView};

verus! {

/// The one piece of mutable state of each device variant.
pub enum DeviceState {
    Light { on: bool },
    Thermostat { temperature: int },
    DoorLock { locked: bool },
}

/// A device as a mathematical value: its fixed name and its state.
pub struct DeviceModel {
    pub name: Seq<char>,
    pub state: DeviceState,
}

/// The largest temperature a thermostat can hold; a step there leaves it as it is.
pub open spec fn max_temperature() -> int {
    i32::MAX as int
}

/// Base-ten digits of a natural number, most significant first.
pub open spec fn digits_text(n: nat) -> Seq<char>
    decreases n,
{
    let d = seq!['0', '1', '2', '3', '4', '5', '6', '7', '8', '9'][(n % 10) as int];
    if n < 10 {
        seq![d]
    } else {
        digits_text(n / 10).push(d)
    }
}

/// An integer written in base ten, with a leading '-' when negative.
pub open spec fn decimal_text(n: int) -> Seq<char> {
    if n < 0 {
        seq!['-'] + digits_text((-n) as nat)
    } else {
        digits_text(n as nat)
    }
}

/// The fixed type tag of each variant.
pub open spec fn type_tag(s: DeviceState) -> Seq<char> {
    match s {
        DeviceState::Light { .. } => "Light"@,
        DeviceState::Thermostat { .. } => "Thermostat"@,
        DeviceState::DoorLock { .. } => "DoorLock"@,
    }
}

/// How each state is shown to people.
pub open spec fn state_text(s: DeviceState) -> Seq<char> {
    match s {
        DeviceState::Light { on } => if on { "on"@ } else { "off"@ },
        DeviceState::Thermostat { temperature } => decimal_text(temperature) + "°C"@,
        DeviceState::DoorLock { locked } => if locked { "locked"@ } else { "unlocked"@ },
    }
}

/// Which commands each variant accepts.
pub open spec fn accepts(s: DeviceState, c: EventType) -> bool {
    match s {
        DeviceState::Light { .. } => c == EventType::TurnOn || c == EventType::TurnOff,
        DeviceState::Thermostat { .. } => c == EventType::SetTemp,
        DeviceState::DoorLock { .. } => c == EventType::Lock || c == EventType::Unlock,
    }
}

/// The state after an accepted command.
pub open spec fn applied(s: DeviceState, c: EventType) -> DeviceState {
    match s {
        DeviceState::Light { on } => DeviceState::Light { on: c == EventType::TurnOn },
        DeviceState::Thermostat { temperature } => DeviceState::Thermostat {
            temperature: if temperature < max_temperature() {
                temperature + 1
            } else {
                temperature
            },
        },
        DeviceState::DoorLock { locked } => DeviceState::DoorLock { locked: c == EventType::Lock },
    }
}

/// The event that reports device `d` (already changed) after command `c`.
pub open spec fn event_of(d: DeviceModel, c: EventType) -> EventView {
    EventView {
        device_name: d.name,
        device_type: type_tag(d.state),
        event_type: c,
        payload: Some(state_text(d.state)),
    }
}

/// The whole effect of asking device `d` to perform `c`: the device afterwards,
/// and what is returned.
pub open spec fn apply_outcome(
    before: DeviceModel,
    after: DeviceModel,
    c: EventType,
    r: Result<Event, DeviceError>,
) -> bool {
    if accepts(before.state, c) {
        &&& after == (DeviceModel { name: before.name, state: applied(before.state, c) })
        &&& r is Ok
        &&& r->Ok_0@ == event_of(after, c)
    } else {
        &&& after == before
        &&& r == Err::<Event, DeviceError>(DeviceError::UnsupportedCommand)
    }
}

/// The state after `c` is applied `k` times in a row.
pub open spec fn applied_times(s: DeviceState, c: EventType, k: nat) -> DeviceState
    decreases k,
{
    if k == 0 {
        s
    } else {
        applied(applied_times(s, c, (k - 1) as nat), c)
    }
}

/// A light accepts `TurnOn` and `TurnOff`; after `TurnOn` it shows "on",
/// after a following `TurnOff` it shows "off", and either command given twice
/// leaves the light as giving it once does.
pub proof fn light_switching(s: DeviceState)
    requires
        s is Light,
    ensures
        accepts(s, EventType::TurnOn),
        accepts(s, EventType::TurnOff),
        state_text(applied(s, EventType::TurnOn)) == "on"@,
        state_text(applied(applied(s, EventType::TurnOn), EventType::TurnOff)) == "off"@,
        applied(applied(s, EventType::TurnOn), EventType::TurnOn) == applied(s, EventType::TurnOn),
        applied(applied(s, EventType::TurnOff), EventType::TurnOff) == applied(s, EventType::TurnOff),
{
}

/// A door lock accepts `Lock` and `Unlock`, which show "locked" and
/// "unlocked"; each undoes the other, and either given twice leaves the lock as
/// giving it once does.
pub proof fn lock_unlock_inverse(s: DeviceState)
    requires
        s is DoorLock,
    ensures
        accepts(s, EventType::Lock),
        accepts(s, EventType::Unlock),
        state_text(applied(s, EventType::Lock)) == "locked"@,
        state_text(applied(s, EventType::Unlock)) == "unlocked"@,
        applied(applied(s, EventType::Lock), EventType::Unlock) == applied(s, EventType::Unlock),
        applied(applied(s, EventType::Unlock), EventType::Lock) == applied(s, EventType::Lock),
        applied(applied(s, EventType::Lock), EventType::Lock) == applied(s, EventType::Lock),
        applied(applied(s, EventType::Unlock), EventType::Unlock) == applied(s, EventType::Unlock),
{
}

/// A thermostat that starts at `n` shows `n + k` degrees after `k` steps,
/// as long as `n + k` fits in an `i32`.
pub proof fn thermostat_steps(n: i32, k: nat)
    requires
        n + k <= max_temperature(),
    ensures
        applied_times(DeviceState::Thermostat { temperature: n as int }, EventType::SetTemp, k)
            == (DeviceState::Thermostat { temperature: n + k }),
        state_text(
            applied_times(DeviceState::Thermostat { temperature: n as int }, EventType::SetTemp, k),
        ) == decimal_text(n + k) + "°C"@,
    decreases k,
{
    if k > 0 {
        thermostat_steps(n, (k - 1) as nat);
    }
}

/// A command that a variant does not accept fails, and leaves the device, and
/// so what it shows, as it was.
pub proof fn rejected_command_keeps_state(
    before: DeviceModel,
    after: DeviceModel,
    c: EventType,
    r: Result<Event, DeviceError>,
)
    requires
        apply_outcome(before, after, c, r),
        !accepts(before.state, c),
    ensures
        r == Err::<Event, DeviceError>(DeviceError::UnsupportedCommand),
        after == before,
        state_text(after.state) == state_text(before.state),
{
}

/// A controllable device: a fixed name and type, and state that changes only
/// through `execute_command`.
pub trait Device {
    /// The identifier given at construction.
    fn get_name(&self) -> &str;

    /// The variant's tag, such as "Light".
    fn get_type(&self) -> &str;

    /// Applies a command: on acceptance the state changes and an event carries
    /// the new state; on rejection nothing changes.
    fn execute_command(&mut self, command: EventType) -> Result<Event, DeviceError>;

    /// The current state, as shown to people.
    fn get_state(&self) -> String;
}

} // verus!
