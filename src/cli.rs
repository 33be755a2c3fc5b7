//! The command-line front end: it reads a line of words as a request, carries
//! the request out on the hub, and says what to print.
use vstd::prelude::*;
use crate::devices::door_lock::DoorLock;
use crate::devices::light::Light;
use crate::devices::thermostat::{Thermostat, DEFAULT_TEMPERATURE};
use crate::devices::SmartDevice;
use crate::mediator::{execute_outcome, HomeHub, HubView};
use crate::models::device::{DeviceModel, DeviceState};
use crate::models::event::{error_text, payload_view, DeviceError, Event, EventType};
use crate::text::{
    join_range, join_words, lower_of, lowercase, parse_i32, parsed_i32, quoted, quoted_of,
    same_text, split_words, views, words,
};

verus! {

/// The kind of device an `add` request creates.
#[derive(Clone, Copy, Debug, PartialEq, Eq, Structural)]
pub enum NewDevice {
    Light,
    DoorLock,
    Thermostat(i32),
}

/// What a line asks for.
#[derive(Debug)]
pub enum Request {
    /// Nothing but white space.
    Empty,
    Help,
    Exit,
    List,
    /// `add` with too few words.
    AddUsage,
    Add { kind: NewDevice, type_word: String, name: String },
    UnknownDeviceType { type_word: String },
    /// A device command with no device name.
    CommandUsage { action: String },
    Command { action: String, name: String, command: EventType },
    /// `set_temp` with too few words.
    SetTempUsage,
    SetTemp { name: String },
    InvalidTemperature { text: String },
    Unknown { action: String },
}

/// A request as mathematical values.
pub enum RequestView {
    Empty,
    Help,
    Exit,
    List,
    AddUsage,
    Add { kind: NewDevice, type_word: Seq<char>, name: Seq<char> },
    UnknownDeviceType { type_word: Seq<char> },
    CommandUsage { action: Seq<char> },
    Command { action: Seq<char>, name: Seq<char>, command: EventType },
    SetTempUsage,
    SetTemp { name: Seq<char> },
    InvalidTemperature { text: Seq<char> },
    Unknown { action: Seq<char> },
}

impl View for Request {
    type V = RequestView;

    open spec fn view(&self) -> RequestView {
        match self {
            Request::Empty => RequestView::Empty,
            Request::Help => RequestView::Help,
            Request::Exit => RequestView::Exit,
            Request::List => RequestView::List,
            Request::AddUsage => RequestView::AddUsage,
            Request::Add { kind, type_word, name } => RequestView::Add {
                kind: *kind,
                type_word: type_word@,
                name: name@,
            },
            Request::UnknownDeviceType { type_word } => RequestView::UnknownDeviceType {
                type_word: type_word@,
            },
            Request::CommandUsage { action } => RequestView::CommandUsage { action: action@ },
            Request::Command { action, name, command } => RequestView::Command {
                action: action@,
                name: name@,
                command: *command,
            },
            Request::SetTempUsage => RequestView::SetTempUsage,
            Request::SetTemp { name } => RequestView::SetTemp { name: name@ },
            Request::InvalidTemperature { text } => RequestView::InvalidTemperature {
                text: text@,
            },
            Request::Unknown { action } => RequestView::Unknown { action: action@ },
        }
    }
}

/// The device command that a lowered action word names, if any.
pub open spec fn command_word(action: Seq<char>) -> Option<EventType> {
    if action == "turn_on"@ {
        Some(EventType::TurnOn)
    } else if action == "turn_off"@ {
        Some(EventType::TurnOff)
    } else if action == "lock"@ {
        Some(EventType::Lock)
    } else if action == "unlock"@ {
        Some(EventType::Unlock)
    } else {
        None
    }
}

/// The starting temperature of `add thermostat ...`: the fourth word when it
/// is a number, else the default.
pub open spec fn initial_temperature(w: Seq<Seq<char>>) -> i32 {
    if w.len() > 3 && parsed_i32(w[3]) is Some {
        parsed_i32(w[3])->Some_0
    } else {
        DEFAULT_TEMPERATURE
    }
}

/// The request that words `w` make, where `action` is the first word lowered
/// and `kind` the second word lowered.
pub open spec fn request_of(w: Seq<Seq<char>>, action: Seq<char>, kind: Seq<char>) -> RequestView {
    if w.len() == 0 {
        RequestView::Empty
    } else if action == "add"@ {
        if w.len() < 3 {
            RequestView::AddUsage
        } else {
            let name = join_words(w.subrange(2, w.len() as int));
            if kind == "light"@ {
                RequestView::Add { kind: NewDevice::Light, type_word: w[1], name }
            } else if kind == "doorlock"@ {
                RequestView::Add { kind: NewDevice::DoorLock, type_word: w[1], name }
            } else if kind == "thermostat"@ {
                RequestView::Add {
                    kind: NewDevice::Thermostat(initial_temperature(w)),
                    type_word: w[1],
                    name,
                }
            } else {
                RequestView::UnknownDeviceType { type_word: w[1] }
            }
        }
    } else if command_word(action) is Some {
        if w.len() < 2 {
            RequestView::CommandUsage { action }
        } else {
            RequestView::Command {
                action,
                name: join_words(w.subrange(1, w.len() as int)),
                command: command_word(action)->Some_0,
            }
        }
    } else if action == "set_temp"@ {
        if w.len() < 3 {
            RequestView::SetTempUsage
        } else if parsed_i32(w.last()) is Some {
            RequestView::SetTemp { name: join_words(w.subrange(1, w.len() - 1)) }
        } else {
            RequestView::InvalidTemperature { text: w.last() }
        }
    } else if action == "list"@ {
        RequestView::List
    } else if action == "help"@ && w.len() == 1 {
        RequestView::Help
    } else if action == "exit"@ && w.len() == 1 {
        RequestView::Exit
    } else {
        RequestView::Unknown { action }
    }
}

/// The lowered word at position `i`, or nothing past the end.
pub open spec fn lowered_word(w: Seq<Seq<char>>, i: int) -> Seq<char> {
    if 0 <= i < w.len() {
        lower_of(w[i])
    } else {
        Seq::empty()
    }
}

/// The device command that a lowered action word names, if any.
fn command_for(action: &str) -> (r: Option<EventType>)
    ensures
        r == command_word(action@),
{
    if same_text(action, "turn_on") {
        Some(EventType::TurnOn)
    } else if same_text(action, "turn_off") {
        Some(EventType::TurnOff)
    } else if same_text(action, "lock") {
        Some(EventType::Lock)
    } else if same_text(action, "unlock") {
        Some(EventType::Unlock)
    } else {
        None
    }
}

/// The request that the words make, given the first word lowered (`action`)
/// and the second word lowered (`kind`).
pub fn request_for(w: &Vec<String>, action: &str, kind: &str) -> (r: Request)
    ensures
        r@ == request_of(views(w@), action@, kind@),
{
    let n = w.len();
    let ghost wv = views(w@);
    if n == 0 {
        return Request::Empty;
    }
    if same_text(action, "add") {
        if n < 3 {
            return Request::AddUsage;
        }
        let name = join_range(w, 2, n);
        let type_word = w[1].clone();
        if same_text(kind, "light") {
            Request::Add { kind: NewDevice::Light, type_word, name }
        } else if same_text(kind, "doorlock") {
            Request::Add { kind: NewDevice::DoorLock, type_word, name }
        } else if same_text(kind, "thermostat") {
            let temp = if n > 3 {
                match parse_i32(w[3].as_str()) {
                    Some(t) => t,
                    None => DEFAULT_TEMPERATURE,
                }
            } else {
                DEFAULT_TEMPERATURE
            };
            Request::Add { kind: NewDevice::Thermostat(temp), type_word, name }
        } else {
            Request::UnknownDeviceType { type_word }
        }
    } else if let Some(command) = command_for(action) {
        if n < 2 {
            Request::CommandUsage { action: String::from_str(action) }
        } else {
            Request::Command { action: String::from_str(action), name: join_range(w, 1, n), command }
        }
    } else if same_text(action, "set_temp") {
        if n < 3 {
            Request::SetTempUsage
        } else {
            assert(wv.last() == w@[n - 1]@);
            match parse_i32(w[n - 1].as_str()) {
                Some(_) => Request::SetTemp { name: join_range(w, 1, n - 1) },
                None => Request::InvalidTemperature { text: w[n - 1].clone() },
            }
        }
    } else if same_text(action, "list") {
        Request::List
    } else if same_text(action, "help") && n == 1 {
        Request::Help
    } else if same_text(action, "exit") && n == 1 {
        Request::Exit
    } else {
        Request::Unknown { action: String::from_str(action) }
    }
}

/// Reads a line as a request: its words, with the first two lowered to find
/// the action and the device type.
pub fn parse_request(line: &str) -> (r: Request)
    ensures
        r@ == request_of(
            split_words(line@),
            lowered_word(split_words(line@), 0),
            lowered_word(split_words(line@), 1),
        ),
{
    let w = words(line);
    let action = if w.len() > 0 {
        lowercase(w[0].as_str())
    } else {
        String::new()
    };
    let kind = if w.len() > 1 {
        lowercase(w[1].as_str())
    } else {
        String::new()
    };
    request_for(&w, action.as_str(), kind.as_str())
}

/// One line of output: `Info` for the standard stream, `Problem` for the
/// error stream.
#[derive(Debug)]
pub enum Reply {
    Info(String),
    Problem(String),
}

pub enum ReplyView {
    Info(Seq<char>),
    Problem(Seq<char>),
}

impl View for Reply {
    type V = ReplyView;

    open spec fn view(&self) -> ReplyView {
        match self {
            Reply::Info(s) => ReplyView::Info(s@),
            Reply::Problem(s) => ReplyView::Problem(s@),
        }
    }
}

/// What one line led to: the lines to print, and whether the session is over.
#[derive(Debug)]
pub struct Step {
    pub replies: Vec<Reply>,
    pub finished: bool,
}

pub open spec fn reply_views(v: Seq<Reply>) -> Seq<ReplyView> {
    v.map_values(|r: Reply| r@)
}

/// The help screen, line by line.
pub open spec fn help_lines() -> Seq<Seq<char>> {
    seq![
        "Available commands:"@,
        "  add <device_type> <device_name> [initial_value] - Add a new device"@,
        "     device_type: light | thermostat | doorlock"@,
        "  turn_on <device_name>       - Turn on a light"@,
        "  turn_off <device_name>      - Turn off a light"@,
        "  lock <device_name>          - Lock a door"@,
        "  unlock <device_name>        - Unlock a door"@,
        "  set_temp <device_name> <value> - Set thermostat temperature"@,
        "  list                        - List all registered devices"@,
        "  help                        - Show this help message"@,
        "  exit                        - Exit the CLI"@,
    ]
}

/// Names each quoted as `{:?}` does, separated by ", ".
pub open spec fn quoted_join(ns: Seq<Seq<char>>) -> Seq<char>
    decreases ns.len(),
{
    if ns.len() == 0 {
        Seq::empty()
    } else if ns.len() == 1 {
        quoted_of(ns[0])
    } else {
        quoted_join(ns.drop_last()) + ", "@ + quoted_of(ns.last())
    }
}

/// The names of the devices, in order.
pub open spec fn device_names(ds: Seq<DeviceModel>) -> Seq<Seq<char>> {
    ds.map_values(|d: DeviceModel| d.name)
}

/// What `list` prints.
pub open spec fn list_reply(ds: Seq<DeviceModel>) -> ReplyView {
    if ds.len() == 0 {
        ReplyView::Info("No devices registered."@)
    } else {
        ReplyView::Info("Registered devices: "@ + ("["@ + quoted_join(device_names(ds)) + "]"@))
    }
}

/// The state a new device of this kind starts in.
pub open spec fn initial_state(kind: NewDevice) -> DeviceState {
    match kind {
        NewDevice::Light => DeviceState::Light { on: false },
        NewDevice::DoorLock => DeviceState::DoorLock { locked: false },
        NewDevice::Thermostat(t) => DeviceState::Thermostat { temperature: t as int },
    }
}

/// A payload as printed.
pub open spec fn payload_text(p: Option<Seq<char>>) -> Seq<char> {
    match p {
        Some(s) => s,
        None => "unknown"@,
    }
}

/// What a device command prints.
pub open spec fn command_reply(
    action: Seq<char>,
    name: Seq<char>,
    r: Result<Event, DeviceError>,
) -> ReplyView {
    match r {
        Ok(e) => ReplyView::Info(
            "Executed command: "@ + action + " on '"@ + name + "'. New state: "@ + payload_text(
                payload_view(e.payload),
            ),
        ),
        Err(e) => ReplyView::Problem("Error: "@ + error_text(e, name)),
    }
}

/// What `set_temp` prints.
pub open spec fn set_temp_reply(name: Seq<char>, r: Result<Event, DeviceError>) -> ReplyView {
    match r {
        Ok(e) => ReplyView::Info(
            "Set temperature for '"@ + name + "' to "@ + payload_text(payload_view(e.payload)),
        ),
        Err(e) => ReplyView::Problem("Error: "@ + error_text(e, name)),
    }
}

/// A request that changes nothing and prints `out`.
pub open spec fn only_says(before: HubView, after: HubView, out: Seq<ReplyView>, says: ReplyView) -> bool {
    after == before && out == seq![says]
}

/// What carrying out request `q` does to the hub and prints.
pub open spec fn request_effect(
    before: HubView,
    after: HubView,
    q: RequestView,
    out: Seq<ReplyView>,
    finished: bool,
) -> bool {
    &&& finished == (q is Exit)
    &&& match q {
        RequestView::Empty => only_says(before, after, out, ReplyView::Info("Empty command"@)),
        RequestView::Help => after == before && out == help_lines().map_values(
            |l: Seq<char>| ReplyView::Info(l),
        ),
        RequestView::Exit => only_says(before, after, out, ReplyView::Info("Exiting CLI. Goodbye!"@)),
        RequestView::List => only_says(before, after, out, list_reply(before.devices)),
        RequestView::AddUsage => only_says(
            before,
            after,
            out,
            ReplyView::Problem("Usage: add <device_type> <device_name> [initial_value]"@),
        ),
        RequestView::Add { kind, type_word, name } => {
            &&& after.devices == before.devices.push(
                DeviceModel { name, state: initial_state(kind) },
            )
            &&& after.observer_count == before.observer_count
            &&& after.deliveries == before.deliveries
            &&& out == seq![
                ReplyView::Info(
                    "Device '"@ + name + "' of type '"@ + type_word + "' added."@,
                ),
            ]
        },
        RequestView::UnknownDeviceType { type_word } => only_says(
            before,
            after,
            out,
            ReplyView::Problem("Unknown device type '"@ + type_word + "'"@),
        ),
        RequestView::CommandUsage { action } => only_says(
            before,
            after,
            out,
            ReplyView::Problem("Usage: "@ + action + " <device_name>"@),
        ),
        RequestView::Command { action, name, command } => exists|r: Result<Event, DeviceError>|
            #[trigger] execute_outcome(before, after, name, command, r) && out == seq![
                command_reply(action, name, r),
            ],
        RequestView::SetTempUsage => only_says(
            before,
            after,
            out,
            ReplyView::Problem("Usage: set_temp <device_name> <temperature>"@),
        ),
        RequestView::SetTemp { name } => exists|r: Result<Event, DeviceError>|
            #[trigger] execute_outcome(before, after, name, EventType::SetTemp, r) && out == seq![
                set_temp_reply(name, r),
            ],
        RequestView::InvalidTemperature { text } => only_says(
            before,
            after,
            out,
            ReplyView::Problem("Invalid temperature '"@ + text + "'"@),
        ),
        RequestView::Unknown { action } => only_says(
            before,
            after,
            out,
            ReplyView::Problem("Unknown command '"@ + action + "'"@),
        ),
    }
}

/// The request that a line makes.
pub open spec fn line_request(line: Seq<char>) -> RequestView {
    request_of(split_words(line), lowered_word(split_words(line), 0), lowered_word(split_words(line), 1))
}

fn say(text: String) -> (r: Step)
    ensures
        reply_views(r.replies@) == seq![ReplyView::Info(text@)],
        !r.finished,
{
    let mut replies: Vec<Reply> = Vec::new();
    replies.push(Reply::Info(text));
    assert(reply_views(replies@) =~= seq![ReplyView::Info(text@)]);
    Step { replies, finished: false }
}

fn complain(text: String) -> (r: Step)
    ensures
        reply_views(r.replies@) == seq![ReplyView::Problem(text@)],
        !r.finished,
{
    let mut replies: Vec<Reply> = Vec::new();
    replies.push(Reply::Problem(text));
    assert(reply_views(replies@) =~= seq![ReplyView::Problem(text@)]);
    Step { replies, finished: false }
}

/// The help screen.
fn help() -> (r: Vec<Reply>)
    ensures
        reply_views(r@) == help_lines().map_values(|l: Seq<char>| ReplyView::Info(l)),
{
    let mut out: Vec<Reply> = Vec::new();
    out.push(Reply::Info(String::from_str("Available commands:")));
    out.push(Reply::Info(String::from_str("  add <device_type> <device_name> [initial_value] - Add a new device")));
    out.push(Reply::Info(String::from_str("     device_type: light | thermostat | doorlock")));
    out.push(Reply::Info(String::from_str("  turn_on <device_name>       - Turn on a light")));
    out.push(Reply::Info(String::from_str("  turn_off <device_name>      - Turn off a light")));
    out.push(Reply::Info(String::from_str("  lock <device_name>          - Lock a door")));
    out.push(Reply::Info(String::from_str("  unlock <device_name>        - Unlock a door")));
    out.push(Reply::Info(String::from_str("  set_temp <device_name> <value> - Set thermostat temperature")));
    out.push(Reply::Info(String::from_str("  list                        - List all registered devices")));
    out.push(Reply::Info(String::from_str("  help                        - Show this help message")));
    out.push(Reply::Info(String::from_str("  exit                        - Exit the CLI")));
    assert(reply_views(out@) =~= help_lines().map_values(|l: Seq<char>| ReplyView::Info(l)));
    out
}

/// The names, each quoted, in brackets.
fn bracketed(names: &Vec<String>) -> (r: String)
    ensures
        r@ == "["@ + quoted_join(views(names@)) + "]"@,
{
    let mut out = String::from_str("[");
    let mut i: usize = 0;
    while i < names.len()
        invariant
            0 <= i <= names@.len(),
            out@ == "["@ + quoted_join(views(names@).subrange(0, i as int)),
        decreases names.len() - i,
    {
        let ghost prev = views(names@).subrange(0, i as int);
        let ghost next = views(names@).subrange(0, i + 1);
        assert(next.drop_last() =~= prev);
        if i > 0 {
            out.append(", ");
        }
        let q = quoted(names[i].as_str());
        out.append(q.as_str());
        i = i + 1;
    }
    assert(views(names@).subrange(0, names@.len() as int) =~= views(names@));
    out.append("]");
    out
}

/// The command-line front end, which owns the hub.
pub struct CLI {
    hub: HomeHub,
}

impl View for CLI {
    type V = HubView;

    closed spec fn view(&self) -> HubView {
        self.hub@
    }
}

impl CLI {
    /// Creates a front end around `hub`.
    pub fn new(hub: HomeHub) -> (r: CLI)
        ensures
            r@ == hub@,
    {
        CLI { hub }
    }

    /// The hub this front end drives.
    pub fn hub(&self) -> (r: &HomeHub)
        ensures
            r@ == self@,
    {
        &self.hub
    }

    /// Carries out a request on the hub and says what to print.
    pub fn perform(&mut self, request: Request) -> (r: Step)
        ensures
            request_effect(old(self)@, final(self)@, request@, reply_views(r.replies@), r.finished),
    {
        match request {
            Request::Empty => say(String::from_str("Empty command")),
            Request::Help => Step { replies: help(), finished: false },
            Request::Exit => {
                let mut s = say(String::from_str("Exiting CLI. Goodbye!"));
                s.finished = true;
                s
            },
            Request::List => {
                let names = self.hub.list_devices();
                assert(views(names@) =~= device_names(self@.devices));
                if names.len() == 0 {
                    say(String::from_str("No devices registered."))
                } else {
                    say(String::from_str("Registered devices: ").concat(bracketed(&names).as_str()))
                }
            },
            Request::AddUsage => complain(
                String::from_str("Usage: add <device_type> <device_name> [initial_value]"),
            ),
            Request::Add { kind, type_word, name } => {
                let device = match kind {
                    NewDevice::Light => SmartDevice::Light(Light::new(name.as_str())),
                    NewDevice::DoorLock => SmartDevice::DoorLock(DoorLock::new(name.as_str())),
                    NewDevice::Thermostat(t) => SmartDevice::Thermostat(
                        Thermostat::new(name.as_str(), t),
                    ),
                };
                self.hub.register_device(device);
                say(
                    String::from_str("Device '").concat(name.as_str()).concat(
                        "' of type '",
                    ).concat(type_word.as_str()).concat("' added."),
                )
            },
            Request::UnknownDeviceType { type_word } => complain(
                String::from_str("Unknown device type '").concat(type_word.as_str()).concat("'"),
            ),
            Request::CommandUsage { action } => complain(
                String::from_str("Usage: ").concat(action.as_str()).concat(" <device_name>"),
            ),
            Request::Command { action, name, command } => {
                let result = self.hub.execute_device_command(name.as_str(), command);
                let step = match &result {
                    Ok(event) => {
                        let state = match &event.payload {
                            Some(p) => p.clone(),
                            None => String::from_str("unknown"),
                        };
                        say(
                            String::from_str("Executed command: ").concat(action.as_str()).concat(
                                " on '",
                            ).concat(name.as_str()).concat("'. New state: ").concat(
                                state.as_str(),
                            ),
                        )
                    },
                    Err(e) => complain(
                        String::from_str("Error: ").concat(e.describe(name.as_str()).as_str()),
                    ),
                };
                assert(execute_outcome(old(self)@, self@, name@, command, result));
                step
            },
            Request::SetTempUsage => complain(
                String::from_str("Usage: set_temp <device_name> <temperature>"),
            ),
            Request::SetTemp { name } => {
                let result = self.hub.execute_device_command(name.as_str(), EventType::SetTemp);
                let step = match &result {
                    Ok(event) => {
                        let state = match &event.payload {
                            Some(p) => p.clone(),
                            None => String::from_str("unknown"),
                        };
                        say(
                            String::from_str("Set temperature for '").concat(name.as_str()).concat(
                                "' to ",
                            ).concat(state.as_str()),
                        )
                    },
                    Err(e) => complain(
                        String::from_str("Error: ").concat(e.describe(name.as_str()).as_str()),
                    ),
                };
                assert(execute_outcome(old(self)@, self@, name@, EventType::SetTemp, result));
                step
            },
            Request::InvalidTemperature { text } => complain(
                String::from_str("Invalid temperature '").concat(text.as_str()).concat("'"),
            ),
            Request::Unknown { action } => complain(
                String::from_str("Unknown command '").concat(action.as_str()).concat("'"),
            ),
        }
    }

    /// Reads one line as a request, carries it out, and says what to print.
    pub fn parse_command(&mut self, command: &str) -> (r: Step)
        ensures
            request_effect(
                old(self)@,
                final(self)@,
                line_request(command@),
                reply_views(r.replies@),
                r.finished,
            ),
    {
        let request = parse_request(command);
        self.perform(request)
    }
}

} // verus!
