//! The hub: it owns the devices and the observers, routes each command to the
//! device it names, and tells every observer of the result.
use vstd::prelude::*;
use crate::devices::SmartDevice;
use crate::models::device::{apply_outcome, state_text, DeviceModel};
use crate::models::event::{DeviceError, Event, EventType, EventView};
use crate::observer::Observer;
use crate::text::same_text;

verus! {

/// One notification: the position of the observer that was told, and the event.
pub type Delivery = (int, EventView);

/// The hub as a mathematical value.
pub struct HubView {
    /// The devices, in registration order.
    pub devices: Seq<DeviceModel>,
    /// How many observers are registered.
    pub observer_count: nat,
    /// Every notification made so far, in the order they were made.
    pub deliveries: Seq<Delivery>,
}

/// True when `i` is the first position whose device is called `name`.
pub open spec fn first_match(devices: Seq<DeviceModel>, name: Seq<char>, i: int) -> bool {
    &&& 0 <= i < devices.len()
    &&& devices[i].name == name
    &&& forall|j: int| 0 <= j < i ==> devices[j].name != name
}

/// True when some device is called `name`.
pub open spec fn has_device(devices: Seq<DeviceModel>, name: Seq<char>) -> bool {
    exists|i: int| 0 <= i < devices.len() && devices[i].name == name
}

/// One notification of `e` to each of `count` observers, in registration order.
pub open spec fn fan_out(count: nat, e: EventView) -> Seq<Delivery> {
    Seq::new(count, |k: int| (k, e))
}

/// What running `c` on the device called `name` does to a hub and returns.
/// With no such device: `DeviceNotFound`, and nothing changes. Otherwise the
/// first device of that name takes the command as its variant does; on success
/// every observer is told of the event once, in registration order, and on
/// failure no observer is told.
pub open spec fn execute_outcome(
    before: HubView,
    after: HubView,
    name: Seq<char>,
    c: EventType,
    r: Result<Event, DeviceError>,
) -> bool {
    &&& after.observer_count == before.observer_count
    &&& !has_device(before.devices, name) ==> {
        &&& r == Err::<Event, DeviceError>(DeviceError::DeviceNotFound)
        &&& after == before
    }
    &&& forall|i: int| #[trigger]
        first_match(before.devices, name, i) ==> {
            &&& after.devices == before.devices.update(i, after.devices[i])
            &&& apply_outcome(before.devices[i], after.devices[i], c, r)
            &&& r is Ok ==> after.deliveries == before.deliveries + fan_out(
                before.observer_count,
                r->Ok_0@,
            )
            &&& r is Err ==> after.deliveries == before.deliveries
        }
}

/// Some device called `name` means a first one called `name`.
proof fn first_match_below(devices: Seq<DeviceModel>, name: Seq<char>, j: int)
    requires
        0 <= j < devices.len(),
        devices[j].name == name,
    ensures
        exists|i: int| first_match(devices, name, i),
    decreases j,
{
    if exists|k: int| 0 <= k < j && devices[k].name == name {
        let k = choose|k: int| 0 <= k < j && devices[k].name == name;
        first_match_below(devices, name, k);
    } else {
        assert(first_match(devices, name, j));
    }
}

/// A command aimed at a name that no device has fails with `DeviceNotFound`,
/// and no observer is told of anything.
pub proof fn unknown_device_notifies_nobody(
    before: HubView,
    after: HubView,
    name: Seq<char>,
    c: EventType,
    r: Result<Event, DeviceError>,
)
    requires
        execute_outcome(before, after, name, c, r),
        !has_device(before.devices, name),
    ensures
        r == Err::<Event, DeviceError>(DeviceError::DeviceNotFound),
        after.deliveries == before.deliveries,
{
}

/// After a successful command every registered observer has been told exactly
/// once, in registration order, of an event whose payload is what the device
/// shows after the change.
pub proof fn success_notifies_each_observer_once(
    before: HubView,
    after: HubView,
    name: Seq<char>,
    c: EventType,
    r: Result<Event, DeviceError>,
)
    requires
        execute_outcome(before, after, name, c, r),
        r is Ok,
    ensures
        after.deliveries.len() == before.deliveries.len() + before.observer_count,
        after.deliveries.subrange(0, before.deliveries.len() as int) == before.deliveries,
        forall|k: int|
            0 <= k < before.observer_count ==> #[trigger] after.deliveries[before.deliveries.len()
                + k] == (k, r->Ok_0@),
        exists|i: int|
            first_match(before.devices, name, i) && r->Ok_0@.payload == Some(
                state_text(after.devices[i].state),
            ),
{
    if !has_device(before.devices, name) {
        assert(r is Err);
    }
    let j = choose|j: int| 0 <= j < before.devices.len() && before.devices[j].name == name;
    first_match_below(before.devices, name, j);
    let i = choose|i: int| first_match(before.devices, name, i);
    assert(first_match(before.devices, name, i));
    let e = r->Ok_0@;
    assert(after.deliveries == before.deliveries + fan_out(before.observer_count, e));
    assert(after.deliveries.subrange(0, before.deliveries.len() as int) =~= before.deliveries);
    assert forall|k: int| 0 <= k < before.observer_count implies #[trigger] after.deliveries[before.deliveries.len()
        + k] == (k, e) by {
        assert(fan_out(before.observer_count, e)[k] == (k, e));
    }
}

/// The mediator between devices and observers.
pub struct HomeHub {
    devices: Vec<SmartDevice>,
    observers: Vec<Box<dyn Observer>>,
    deliveries: Ghost<Seq<Delivery>>,
}

impl View for HomeHub {
    type V = HubView;

    closed spec fn view(&self) -> HubView {
        HubView {
            devices: self.devices@.map_values(|d: SmartDevice| d@),
            observer_count: self.observers@.len(),
            deliveries: self.deliveries@,
        }
    }
}

impl HomeHub {
    /// Creates a hub with no devices and no observers.
    pub fn new() -> (r: HomeHub)
        ensures
            r@.devices == Seq::<DeviceModel>::empty(),
            r@.observer_count == 0,
            r@.deliveries == Seq::<Delivery>::empty(),
    {
        HomeHub { devices: Vec::new(), observers: Vec::new(), deliveries: Ghost(Seq::empty()) }
    }

    /// Appends a device; names are not checked for uniqueness.
    pub fn register_device(&mut self, device: SmartDevice)
        ensures
            final(self)@.devices == old(self)@.devices.push(device@),
            final(self)@.observer_count == old(self)@.observer_count,
            final(self)@.deliveries == old(self)@.deliveries,
    {
        self.devices.push(device);
        assert(self@.devices =~= old(self)@.devices.push(device@));
    }

    /// Appends an observer; it is told of events after those registered before it.
    pub fn register_observer(&mut self, observer: Box<dyn Observer>)
        ensures
            final(self)@.devices == old(self)@.devices,
            final(self)@.observer_count == old(self)@.observer_count + 1,
            final(self)@.deliveries == old(self)@.deliveries,
    {
        self.observers.push(observer);
        proof {
            // The solver does not find the length of a push of a boxed trait
            // object on its own; vstd's fact about `push` gives it.
            vstd::seq::axiom_seq_push_len(old(self).observers@, observer);
        }
        assert(self@.devices =~= old(self)@.devices);
    }

    /// The position of the first device called `name`, if any.
    fn find(&self, name: &str) -> (r: Option<usize>)
        ensures
            r is None <==> !has_device(self@.devices, name@),
            r matches Some(i) ==> first_match(self@.devices, name@, i as int),
    {
        let mut i: usize = 0;
        while i < self.devices.len()
            invariant
                0 <= i <= self.devices.len(),
                forall|j: int| 0 <= j < i ==> self@.devices[j].name != name@,
            decreases self.devices.len() - i,
        {
            if same_text(self.devices[i].get_name(), name) {
                assert(self@.devices[i as int] == self.devices@[i as int]@);
                return Some(i);
            }
            i = i + 1;
        }
        None
    }

    /// Tells every observer of `event`, in registration order.
    fn notify(&mut self, event: &Event)
        ensures
            final(self)@.devices == old(self)@.devices,
            final(self)@.observer_count == old(self)@.observer_count,
            final(self)@.deliveries == old(self)@.deliveries + fan_out(
                old(self)@.observer_count,
                event@,
            ),
    {
        let n = self.observers.len();
        let mut i: usize = 0;
        while i < n
            invariant
                0 <= i <= n,
                n == self.observers.len(),
                self@.devices == old(self)@.devices,
                self@.observer_count == old(self)@.observer_count,
                self@.deliveries == old(self)@.deliveries + fan_out(i as nat, event@),
            decreases n - i,
        {
            self.observers[i].on_event(event);
            self.deliveries = Ghost(self.deliveries@.push((i as int, event@)));
            assert(fan_out((i + 1) as nat, event@) =~= fan_out(i as nat, event@).push(
                (i as int, event@),
            ));
            i = i + 1;
        }
    }

    /// Runs `command` on the first device called `device_name`. On success every
    /// observer is told of the event, which is then returned; on failure no
    /// observer is told and no device changes.
    pub fn execute_device_command(&mut self, device_name: &str, command: EventType) -> (r: Result<
        Event,
        DeviceError,
    >)
        ensures
            execute_outcome(old(self)@, final(self)@, device_name@, command, r),
    {
        match self.find(device_name) {
            None => Err(DeviceError::DeviceNotFound),
            Some(i) => {
                let result = self.devices[i].execute_command(command);
                assert(self@.devices =~= old(self)@.devices.update(i as int, self@.devices[i as int]));
                match result {
                    Ok(event) => {
                        self.notify(&event);
                        Ok(event)
                    },
                    Err(e) => Err(e),
                }
            },
        }
    }

    /// The names of the devices, in registration order.
    pub fn list_devices(&self) -> (r: Vec<String>)
        ensures
            r@.len() == self@.devices.len(),
            forall|i: int| 0 <= i < r@.len() ==> #[trigger] r@[i]@ == self@.devices[i].name,
    {
        let mut names: Vec<String> = Vec::new();
        let mut i: usize = 0;
        while i < self.devices.len()
            invariant
                0 <= i <= self.devices.len(),
                names@.len() == i,
                forall|j: int| 0 <= j < i ==> #[trigger] names@[j]@ == self@.devices[j].name,
            decreases self.devices.len() - i,
        {
            names.push(String::from_str(self.devices[i].get_name()));
            i = i + 1;
        }
        names
    }

    /// The state of the first device called `name`, as shown to people.
    pub fn device_state(&self, name: &str) -> (r: Option<String>)
        ensures
            r is None <==> !has_device(self@.devices, name@),
            forall|i: int| #[trigger]
                first_match(self@.devices, name@, i) ==> (r matches Some(s) && s@
                    == state_text(self@.devices[i].state)),
    {
        match self.find(name) {
            None => None,
            Some(i) => Some(self.devices[i].get_state()),
        }
    }
}

} // verus!
