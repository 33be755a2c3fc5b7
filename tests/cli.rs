use pulsehome::cli::{parse_request, request_for, NewDevice, Reply, Request, CLI};
use pulsehome::devices::light::Light;
use pulsehome::devices::SmartDevice;
use pulsehome::mediator::HomeHub;
use pulsehome::models::event::EventType;
use pulsehome::text::{is_white, join_range, same_text, words};

fn texts(replies: &[Reply]) -> Vec<String> {
    replies
        .iter()
        .map(|r| match r {
            Reply::Info(s) => format!("out: {}", s),
            Reply::Problem(s) => format!("err: {}", s),
        })
        .collect()
}

#[test]
fn test_add_command() {
    let hub = HomeHub::new();
    let mut cli = CLI::new(hub);

    cli.parse_command("add light Living Room Light");
    cli.parse_command("add thermostat Bedroom Thermostat 24");
    cli.parse_command("add doorlock Front Door");

    let devices = cli.hub().list_devices();
    assert!(devices.contains(&"Living Room Light".to_string()));
    assert!(devices.contains(&"Front Door".to_string()));
}

#[test]
fn test_list_command() {
    let mut hub = HomeHub::new();
    hub.register_device(SmartDevice::Light(Light::new("Living Room Light")));
    let mut cli = CLI::new(hub);

    cli.parse_command("list");
}

#[test]
fn test_turn_on_off_commands() {
    let mut hub = HomeHub::new();
    hub.register_device(SmartDevice::Light(Light::new("Living Room Light")));
    let mut cli = CLI::new(hub);

    cli.parse_command("turn_on Living Room Light");
    let names = cli.hub().list_devices();
    let _device = names.iter().find(|d| d.as_str() == "Living Room Light").unwrap();
}

#[test]
fn test_invalid_command() {
    let hub = HomeHub::new();
    let mut cli = CLI::new(hub);

    cli.parse_command("fly Living Room Light");
}

#[test]
fn test_missing_arguments() {
    let hub = HomeHub::new();
    let mut cli = CLI::new(hub);

    cli.parse_command("add");
    cli.parse_command("turn_on");
    cli.parse_command("set_temp Bedroom Thermostat");
}

#[test]
fn session_output() {
    let mut cli = CLI::new(HomeHub::new());
    let mut say = |line: &str| {
        let step = cli.parse_command(line);
        (texts(&step.replies), step.finished)
    };
    assert_eq!(say("   \t "), (vec!["out: Empty command".to_string()], false));
    assert_eq!(say("list"), (vec!["out: No devices registered.".to_string()], false));
    assert_eq!(
        say("ADD Light  Living   Room "),
        (vec!["out: Device 'Living Room' of type 'Light' added.".to_string()], false)
    );
    assert_eq!(
        say("add thermostat Attic Unit 30"),
        (vec!["out: Device 'Attic Unit 30' of type 'thermostat' added.".to_string()], false)
    );
    assert_eq!(
        say("turn_on Living Room"),
        (vec!["out: Executed command: turn_on on 'Living Room'. New state: on".to_string()], false)
    );
    assert_eq!(
        say("Lock Living Room"),
        (vec!["err: Error: Unsupported command for this device type".to_string()], false)
    );
    assert_eq!(
        say("set_temp Attic Unit 30 99"),
        (vec!["out: Set temperature for 'Attic Unit 30' to 23°C".to_string()], false)
    );
    assert_eq!(
        say("set_temp Attic Unit 30 warm"),
        (vec!["err: Invalid temperature 'warm'".to_string()], false)
    );
    assert_eq!(
        say("unlock Cellar"),
        (vec!["err: Error: Device 'Cellar' not found".to_string()], false)
    );
    assert_eq!(
        say("list"),
        (vec![r#"out: Registered devices: ["Living Room", "Attic Unit 30"]"#.to_string()], false)
    );
    assert_eq!(
        say("add lamp Desk"),
        (vec!["err: Unknown device type 'lamp'".to_string()], false)
    );
    assert_eq!(
        say("add light"),
        (vec!["err: Usage: add <device_type> <device_name> [initial_value]".to_string()], false)
    );
    assert_eq!(say("TURN_OFF"), (vec!["err: Usage: turn_off <device_name>".to_string()], false));
    assert_eq!(
        say("set_temp Attic"),
        (vec!["err: Usage: set_temp <device_name> <temperature>".to_string()], false)
    );
    assert_eq!(say("fly away"), (vec!["err: Unknown command 'fly'".to_string()], false));
    assert_eq!(say("help").0.len(), 11);
    assert_eq!(say("help").0[0], "out: Available commands:");
    assert_eq!(say(" EXIT "), (vec!["out: Exiting CLI. Goodbye!".to_string()], true));
    assert_eq!(say("exit now"), (vec!["err: Unknown command 'exit'".to_string()], false));
}

#[test]
fn quoted_names_are_escaped() {
    let mut cli = CLI::new(HomeHub::new());
    cli.parse_command("add doorlock Say\"Hi\"");
    let step = cli.parse_command("list");
    assert_eq!(texts(&step.replies), vec![r#"out: Registered devices: ["Say\"Hi\""]"#.to_string()]);
}

#[test]
fn thermostat_initial_value_from_fourth_word() {
    let mut cli = CLI::new(HomeHub::new());
    cli.parse_command("add thermostat Bedroom 24");
    cli.parse_command("add thermostat Hall Way");
    cli.parse_command("add thermostat Loft -5 x");
    assert_eq!(cli.hub().device_state("Bedroom 24").unwrap(), "24°C");
    assert_eq!(cli.hub().device_state("Hall Way").unwrap(), "22°C");
    assert_eq!(cli.hub().device_state("Loft -5 x").unwrap(), "-5°C");
}

#[test]
fn request_for_given_lowered_words() {
    let w: Vec<String> = vec!["X".into(), "Y".into(), "Front".into(), "Door".into()];
    match request_for(&w, "add", "doorlock") {
        Request::Add { kind, type_word, name } => {
            assert_eq!(kind, NewDevice::DoorLock);
            assert_eq!(type_word, "Y");
            assert_eq!(name, "Front Door");
        }
        other => panic!("unexpected {:?}", other),
    }
    match request_for(&w, "unlock", "") {
        Request::Command { action, name, command } => {
            assert_eq!(action, "unlock");
            assert_eq!(name, "Y Front Door");
            assert_eq!(command, EventType::Unlock);
        }
        other => panic!("unexpected {:?}", other),
    }
    assert!(matches!(request_for(&w, "exit", ""), Request::Unknown { .. }));
    assert!(matches!(request_for(&Vec::new(), "", ""), Request::Empty));
}

#[test]
fn parse_request_lowers_action_and_type() {
    match parse_request("SET_TEMP Kids Room +7") {
        Request::SetTemp { name } => assert_eq!(name, "Kids Room"),
        other => panic!("unexpected {:?}", other),
    }
    match parse_request("add THERMOSTAT Den 2147483648") {
        Request::Add { kind, .. } => assert_eq!(kind, NewDevice::Thermostat(22)),
        other => panic!("unexpected {:?}", other),
    }
    match parse_request("add Thermostat Den -2147483648") {
        Request::Add { kind, .. } => assert_eq!(kind, NewDevice::Thermostat(i32::MIN)),
        other => panic!("unexpected {:?}", other),
    }
    assert!(matches!(parse_request("LiSt extra"), Request::List));
    assert!(matches!(parse_request("Help"), Request::Help));
}

#[test]
fn words_and_joining() {
    let w = words("  a\u{3000}bc\t\n d  ");
    assert_eq!(w, vec!["a".to_string(), "bc".to_string(), "d".to_string()]);
    assert!(words("").is_empty());
    assert!(words(" \u{2028} ").is_empty());
    assert_eq!(join_range(&w, 0, 3), "a bc d");
    assert_eq!(join_range(&w, 1, 2), "bc");
    assert_eq!(join_range(&w, 2, 2), "");
    assert!(is_white('\u{85}'));
    assert!(!is_white('x'));
    assert!(same_text("Kitchen", "Kitchen"));
    assert!(!same_text("Kitchen", "kitchen"));
}
