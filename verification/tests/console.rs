use rustbee::console::{contains_word, parse_command, plan_send, Args, Command, SendPlan};
use rustbee::error::Error;
use rustbee::manager::{ModuleCommands, ModuleManager};
use rustbee::modules::Module;

fn line(text: &str) -> Args {
    Args::new(text.split_whitespace().collect())
}

fn manager() -> ModuleManager {
    let mut m = ModuleManager::new();
    for (id, addr, name) in [(1u16, 0x11u64, "NODEA"), (2, 0x22, "NODEB")] {
        let mut module = Module::discovered(id, addr);
        module.device.node_id = name.to_string();
        m.add_if_new(module);
    }
    m
}

#[test]
fn args_split_off_the_command_word() {
    let args = Args::new(vec!["send", "nodeA", "set", "motor", "7"]);
    assert_eq!(args.main_arg, "send");
    assert_eq!(args.sub_args, vec!["nodeA", "set", "motor", "7"]);
    let args = Args::new(vec!["list"]);
    assert_eq!(args.main_arg, "list");
    assert!(args.sub_args.is_empty());
    let args = Args::new(vec![]);
    assert_eq!(args.main_arg, "");
    assert!(args.sub_args.is_empty());
}

#[test]
fn command_words() {
    assert_eq!(parse_command(&line("exit")), Ok(Command::Exit));
    assert_eq!(parse_command(&line("help")), Ok(Command::Help));
    assert_eq!(parse_command(&line("clear")), Ok(Command::Clear));
    assert_eq!(parse_command(&line("load")), Ok(Command::Load));
    assert_eq!(parse_command(&line("save")), Ok(Command::Save));
    assert_eq!(parse_command(&line("send nodea request th")), Ok(Command::Send));
    assert_eq!(parse_command(&line("list")), Ok(Command::List { clear: false }));
    assert_eq!(parse_command(&line("list clear")), Ok(Command::List { clear: true }));
    assert_eq!(parse_command(&line("list all clear")), Ok(Command::List { clear: true }));
    assert_eq!(parse_command(&line("list save")), Ok(Command::List { clear: false }));
    assert_eq!(parse_command(&line("discover")), Ok(Command::Discover { save: false }));
    assert_eq!(parse_command(&line("discover save")), Ok(Command::Discover { save: true }));
    assert_eq!(parse_command(&line("discover clear")), Ok(Command::Discover { save: false }));
}

#[test]
fn unknown_and_empty_lines() {
    assert_eq!(parse_command(&line("")), Err(Error::EmptyInput));
    assert_eq!(parse_command(&line("   ")), Err(Error::EmptyInput));
    assert_eq!(parse_command(&line("reboot")), Err(Error::InvalidCommand));
    assert_eq!(parse_command(&line("Exit")), Err(Error::InvalidCommand));
    assert_eq!(parse_command(&line("lists")), Err(Error::InvalidCommand));
}

#[test]
fn words_are_found_whole() {
    let words: Vec<String> = vec!["now".to_string(), "save".to_string()];
    assert!(contains_word(&words, "save"));
    assert!(contains_word(&words, "now"));
    assert!(!contains_word(&words, "sav"));
    assert!(!contains_word(&vec![], "save"));
}

#[test]
fn send_needs_three_words() {
    let m = manager();
    assert_eq!(plan_send(&m, &line("send")), Err(Error::InvalidSubArgs));
    assert_eq!(plan_send(&m, &line("send nodea")), Err(Error::InvalidSubArgs));
    assert_eq!(plan_send(&m, &line("send nodea request")), Err(Error::InvalidSubArgs));
    assert_eq!(plan_send(&m, &line("send nobody request")), Err(Error::InvalidSubArgs));
}

#[test]
fn send_wants_request_or_set() {
    let m = manager();
    assert_eq!(plan_send(&m, &line("send nodea reset th")), Err(Error::InvalidSubArgs));
    assert_eq!(plan_send(&m, &line("send nodeb bogus th now")), Err(Error::InvalidSubArgs));
}

#[test]
fn send_to_an_unknown_name_is_no_such_module() {
    let m = manager();
    assert_eq!(plan_send(&m, &line("send nodec request th")), Err(Error::NoSuchModule));
    assert_eq!(plan_send(&m, &line("send nodec set time")), Err(Error::NoSuchModule));
    assert_eq!(plan_send(&ModuleManager::new(), &line("send nodea request th")), Err(Error::NoSuchModule));
}

#[test]
fn unknown_name_is_reported_before_an_unknown_action() {
    let m = manager();
    assert_eq!(plan_send(&m, &line("send nobody reset th")), Err(Error::NoSuchModule));
    assert_eq!(plan_send(&ModuleManager::new(), &line("send ghost bogus th")), Err(Error::NoSuchModule));
    // Too few words are reported first of all.
    assert_eq!(plan_send(&ModuleManager::new(), &line("send ghost bogus")), Err(Error::InvalidSubArgs));
}

#[test]
fn request_options() {
    let m = manager();
    let plan = |text: &str| plan_send(&m, &line(text));
    let request = |module_idx: usize, commands: Vec<ModuleCommands>| Ok(SendPlan::Request { module_idx, commands });
    assert_eq!(plan("send nodea request th"), request(0, vec![ModuleCommands::RequestTH]));
    assert_eq!(plan("send nodeb request time"), request(1, vec![ModuleCommands::RequestTime]));
    assert_eq!(plan("send NODEB request dist"), request(1, vec![ModuleCommands::RequestDist]));
    assert_eq!(plan("send nodea request motor"), request(0, vec![ModuleCommands::RequestMotor]));
    assert_eq!(plan("send nodea request invalid"), request(0, vec![ModuleCommands::InvalidCmd]));
    assert_eq!(
        plan("send nodea request all"),
        request(0, vec![ModuleCommands::RequestTH, ModuleCommands::RequestTime, ModuleCommands::RequestDist])
    );
    assert_eq!(plan("send nodea request weather"), Ok(SendPlan::Nothing));
}

#[test]
fn set_options() {
    let m = manager();
    let plan = |text: &str| plan_send(&m, &line(text));
    assert_eq!(
        plan("send nodea set time"),
        Ok(SendPlan::SetValue { module_idx: 0, command: ModuleCommands::SetTime, with_args: false })
    );
    assert_eq!(
        plan("send nodeb set schedule"),
        Ok(SendPlan::SetValue { module_idx: 1, command: ModuleCommands::SetSchedule, with_args: false })
    );
    assert_eq!(
        plan("send nodea set motor"),
        Ok(SendPlan::SetValue { module_idx: 0, command: ModuleCommands::SetMotorTime, with_args: false })
    );
    assert_eq!(
        plan("send nodea set motor 7"),
        Ok(SendPlan::SetValue { module_idx: 0, command: ModuleCommands::SetMotorTime, with_args: true })
    );
    assert_eq!(plan("send nodea set colour"), Ok(SendPlan::Nothing));
}

#[test]
fn a_planned_motor_time_reaches_the_payload() {
    let m = manager();
    for (text, seconds) in [("send nodea set motor 7", 7u8), ("send nodea set motor", 3)] {
        let args = line(text);
        match plan_send(&m, &args).unwrap() {
            SendPlan::SetValue { module_idx, command, with_args } => {
                let list = if with_args { Some(&args.sub_args) } else { None };
                let frame = m.set(module_idx, command, list).unwrap();
                assert_eq!(frame.payload[3], seconds);
                assert_eq!(frame.dest_addr, 0x11);
            }
            other => panic!("unexpected plan {:?}", other),
        }
    }
}
