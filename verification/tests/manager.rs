use rustbee::api::{
    Frame, RecieveRequestFrame, RemoteAtCommandFrame, RemoteAtCommandResponse,
    RemoteCommandOptions, TransmitRequestFrame, BROADCAST_ADDR,
};
use rustbee::clock::ClockReading;
use rustbee::commands::{
    build_request_payload, build_set_payload, check_response, decode_dist, decode_th, decode_time,
    ModuleTime,
};
use rustbee::error::Error;
use rustbee::manager::{
    DiscoveryAction, DiscoveryEvent, DiscoveryPhase, ModuleCommands, ModuleManager,
};
use rustbee::modules::{InfoQuery, Module, RemoteDigiMeshDevice};

fn module(id: u16, addr: u64, name: &str) -> Module {
    Module {
        id,
        device: RemoteDigiMeshDevice {
            addr_64bit: addr,
            node_id: name.to_string(),
            firmware_version: None,
            hardware_version: None,
        },
    }
}

fn reply(source_addr: u64, rf_data: &[u8]) -> RecieveRequestFrame {
    RecieveRequestFrame { source_addr, recv_options: 0, rf_data: rf_data.to_vec() }
}

fn words(list: &[&str]) -> Vec<String> {
    list.iter().map(|s| s.to_string()).collect()
}

fn noon() -> ClockReading {
    ClockReading { second: 58, minute: 59, hour: 12, day: 31, month: 10, year: 2026 }
}

#[test]
fn opcodes() {
    assert_eq!(ModuleCommands::RequestTH.value(), 0x2b);
    assert_eq!(ModuleCommands::RequestTime.value(), 0x1d);
    assert_eq!(ModuleCommands::RequestDist.value(), 0x3c);
    assert_eq!(ModuleCommands::RequestMotor.value(), 0x4a);
    assert_eq!(ModuleCommands::SetTime.value(), 0x5e);
    assert_eq!(ModuleCommands::SetSchedule.value(), 0x6c);
    assert_eq!(ModuleCommands::SetMotorTime.value(), 0x7a);
    assert_eq!(ModuleCommands::InvalidCmd.value(), 0x00);
}

#[test]
fn new_manager_knows_nothing() {
    let m = ModuleManager::new();
    assert_eq!(m.len(), 0);
    assert!(m.modules().is_empty());
    assert_eq!(m.get_node_ids(), Ok(vec![]));
    assert_eq!(m.get_module("anything"), None);
}

#[test]
fn second_module_with_a_known_address_is_not_added() {
    let mut m = ModuleManager::new();
    assert!(m.add_if_new(module(0x0001, 0xabc, "FIRST")));
    assert!(!m.add_if_new(module(0x0002, 0xabc, "SECOND")));
    assert_eq!(m.len(), 1);
    let kept = &m.modules()[0];
    assert_eq!(kept.id, 0x0001);
    assert_eq!(kept.device.addr_64bit, 0xabc);
    assert_eq!(kept.device.node_id, "FIRST");
    assert!(m.contains_address(0xabc));
    assert!(!m.contains_address(0xabd));
}

#[test]
fn modules_keep_the_order_they_came_in() {
    let mut m = ModuleManager::new();
    assert!(m.add_if_new(module(1, 30, "C")));
    assert!(m.add_if_new(module(2, 10, "A")));
    assert!(m.add_if_new(module(3, 20, "B")));
    assert!(!m.add_if_new(module(4, 10, "D")));
    assert_eq!(m.get_node_ids(), Ok(words(&["C", "A", "B"])));
    let addrs: Vec<u64> = m.modules().iter().map(|x| x.device.addr_64bit).collect();
    assert_eq!(addrs, vec![30, 10, 20]);
}

#[test]
fn lookup_puts_the_name_in_upper_case() {
    let mut m = ModuleManager::new();
    m.add_if_new(module(1, 1, "NODEA"));
    m.add_if_new(module(2, 2, "NODEB"));
    m.add_if_new(module(3, 3, "NODEA"));
    m.add_if_new(module(4, 4, "NodeC"));
    assert_eq!(m.get_module("nodea"), Some(0));
    assert_eq!(m.get_module("NodeB"), Some(1));
    assert_eq!(m.get_module("NODEB"), Some(1));
    // Stored names are compared as they are.
    assert_eq!(m.get_module("nodec"), None);
    assert_eq!(m.get_module("noded"), None);
    assert_eq!(m.get_module(""), None);
}

#[test]
fn clear_forgets_everything() {
    let mut m = ModuleManager::new();
    m.add_if_new(module(1, 1, "A"));
    m.add_if_new(module(2, 2, "B"));
    m.clear();
    assert_eq!(m.len(), 0);
    assert!(m.add_if_new(module(9, 1, "Z")));
    assert_eq!(m.modules()[0].id, 9);
}

#[test]
fn snapshot_and_restore() {
    let mut m = ModuleManager::new();
    let mut a = module(1, 10, "A");
    a.device.firmware_version = Some(0x1002);
    a.device.hardware_version = Some(0x2a40);
    m.add_if_new(a);
    m.add_if_new(module(2, 20, "B"));
    let saved = m.snapshot();
    assert_eq!(saved.len(), 2);
    assert_eq!(saved[0].id, 1);
    assert_eq!(saved[0].device.node_id, "A");
    assert_eq!(saved[0].device.firmware_version, Some(0x1002));
    assert_eq!(saved[0].device.hardware_version, Some(0x2a40));
    assert_eq!(saved[1].device.addr_64bit, 20);

    let mut other = ModuleManager::new();
    other.add_if_new(module(7, 70, "OLD"));
    other.restore(saved);
    assert_eq!(other.get_node_ids(), Ok(words(&["A", "B"])));
    assert_eq!(other.get_module("old"), None);
    assert_eq!(other.modules()[0].device.firmware_version, Some(0x1002));
}

#[test]
fn restore_keeps_the_first_of_each_address() {
    let mut m = ModuleManager::new();
    m.restore(vec![module(1, 10, "A"), module(2, 20, "B"), module(3, 10, "C"), module(4, 30, "D")]);
    assert_eq!(m.get_node_ids(), Ok(words(&["A", "B", "D"])));
    m.restore(vec![]);
    assert_eq!(m.len(), 0);
}

#[test]
fn request_payload_has_id_and_opcode() {
    let payload = build_request_payload(0xbeef, ModuleCommands::RequestDist);
    assert_eq!(&payload[..], &[0xbe, 0xef, 0x3c, 0, 0, 0, 0, 0, 0, 0, 0, 0, 0, 0, 0, 0][..]);
}

#[test]
fn request_goes_to_the_module() {
    let mut m = ModuleManager::new();
    m.add_if_new(module(0x0102, 0xa1, "A"));
    m.add_if_new(module(0x3344, 0xb2, "B"));
    let f = m.request(1, ModuleCommands::RequestTH).unwrap();
    assert_eq!(
        f,
        TransmitRequestFrame {
            dest_addr: 0xb2,
            broadcast_radius: 0,
            options: 0,
            payload: vec![0x33, 0x44, 0x2b, 0, 0, 0, 0, 0, 0, 0, 0, 0, 0, 0, 0, 0],
        }
    );
    let f = m.request(0, ModuleCommands::InvalidCmd).unwrap();
    assert_eq!(f.dest_addr, 0xa1);
    assert_eq!(&f.payload[..3], &[0x01, 0x02, 0x00]);
    assert_eq!(m.request(2, ModuleCommands::RequestTH), Err(Error::NoSuchModule));
    assert_eq!(ModuleManager::new().request(0, ModuleCommands::RequestTH), Err(Error::NoSuchModule));
}

#[test]
fn set_motor_time_reads_the_fourth_argument() {
    let mut m = ModuleManager::new();
    m.add_if_new(module(0x0102, 0xa1, "NODEA"));
    let line = vec!["send", "nodeA", "set", "motor", "7"];
    let args = rustbee::console::Args::new(line);
    let f = m.set(0, ModuleCommands::SetMotorTime, Some(&args.sub_args)).unwrap();
    assert_eq!(f.payload[3], 7);
    assert_eq!(f.payload, vec![0x01, 0x02, 0x7a, 7, 0, 0, 0, 0, 0, 0, 0, 0, 0, 0, 0, 0]);
    assert_eq!(f.dest_addr, 0xa1);
    assert_eq!(f.options, 0);
    assert_eq!(f.broadcast_radius, 0);
}

#[test]
fn set_motor_time_defaults_to_three() {
    let mut m = ModuleManager::new();
    m.add_if_new(module(0x0102, 0xa1, "NODEA"));
    let f = m.set(0, ModuleCommands::SetMotorTime, None).unwrap();
    assert_eq!(f.payload[3], 3);
    assert_eq!(f.payload, vec![0x01, 0x02, 0x7a, 3, 0, 0, 0, 0, 0, 0, 0, 0, 0, 0, 0, 0]);
}

#[test]
fn set_motor_time_refuses_a_short_or_unreadable_list() {
    let mut m = ModuleManager::new();
    m.add_if_new(module(0x0102, 0xa1, "NODEA"));
    let short = words(&["nodea", "set", "motor"]);
    assert_eq!(m.set(0, ModuleCommands::SetMotorTime, Some(&short)), Err(Error::NoSuchModule));
    assert_eq!(m.set(0, ModuleCommands::SetMotorTime, Some(&vec![])), Err(Error::NoSuchModule));
    let unreadable = words(&["nodea", "set", "motor", "soon"]);
    assert_eq!(m.set(0, ModuleCommands::SetMotorTime, Some(&unreadable)), Err(Error::InvalidSubArgs));
    let too_big = words(&["nodea", "set", "motor", "256"]);
    assert_eq!(m.set(0, ModuleCommands::SetMotorTime, Some(&too_big)), Err(Error::InvalidSubArgs));
    let biggest = words(&["nodea", "set", "motor", "255", "ignored"]);
    assert_eq!(m.set(0, ModuleCommands::SetMotorTime, Some(&biggest)).unwrap().payload[3], 255);
}

#[test]
fn only_set_commands_can_be_set() {
    let mut m = ModuleManager::new();
    m.add_if_new(module(0x0102, 0xa1, "NODEA"));
    for cmd in [
        ModuleCommands::RequestTH,
        ModuleCommands::RequestTime,
        ModuleCommands::RequestDist,
        ModuleCommands::RequestMotor,
        ModuleCommands::InvalidCmd,
    ] {
        assert_eq!(m.set(0, cmd, None), Err(Error::NoSuchModule));
        assert_eq!(m.set_at(0, cmd, None, noon()), Err(Error::NoSuchModule));
    }
    assert_eq!(m.set(1, ModuleCommands::SetSchedule, None), Err(Error::NoSuchModule));
    assert_eq!(m.set_at(5, ModuleCommands::SetTime, None, noon()), Err(Error::NoSuchModule));
}

#[test]
fn set_schedule_is_fixed() {
    let mut m = ModuleManager::new();
    m.add_if_new(module(0x0a0b, 0xa1, "NODEA"));
    let f = m.set(0, ModuleCommands::SetSchedule, None).unwrap();
    assert_eq!(f.payload, vec![0x0a, 0x0b, 0x6c, 9, 0, 12, 0, 15, 0, 18, 0, 0, 0, 0, 0, 0]);
}

#[test]
fn set_time_writes_the_clock() {
    let mut m = ModuleManager::new();
    m.add_if_new(module(0x0a0b, 0xa1, "NODEA"));
    let f = m.set_at(0, ModuleCommands::SetTime, None, noon()).unwrap();
    assert_eq!(f.payload, vec![0x0a, 0x0b, 0x5e, 58, 59, 12, 31, 10, 0x07, 0xea, 0, 0, 0, 0, 0, 0]);
    let payload = build_set_payload(0x0a0b, ModuleCommands::SetTime, None, noon()).unwrap();
    assert_eq!(&payload[..], &f.payload[..]);
}

#[test]
fn set_time_reads_the_host_clock() {
    let mut m = ModuleManager::new();
    m.add_if_new(module(0x0a0b, 0xa1, "NODEA"));
    let f = m.set(0, ModuleCommands::SetTime, None).unwrap();
    assert_eq!(f.payload.len(), 16);
    assert_eq!(&f.payload[..3], &[0x0a, 0x0b, 0x5e]);
    assert!(f.payload[3] < 60);
    assert!(f.payload[4] < 60);
    assert!(f.payload[5] < 24);
    assert!((1..=31).contains(&f.payload[6]));
    assert!((1..=12).contains(&f.payload[7]));
    let year = ((f.payload[8] as u16) << 8) | f.payload[9] as u16;
    assert!(year >= 2024);
    assert_eq!(&f.payload[10..], &[0; 6]);
}

#[test]
fn module_error_is_reported_with_its_code() {
    let r = check_response(reply(0xa1, &[0x01, 0x02, 0xff, 0x07, 0x00]));
    assert_eq!(r, Err(Error::RemoteDeviceError(7)));
    let r = check_response(reply(0xa1, &[0x01, 0x02, 0xff, 0x00]));
    assert_eq!(r, Err(Error::RemoteDeviceError(0)));
}

#[test]
fn short_reply_is_invalid() {
    assert_eq!(check_response(reply(0xa1, &[])), Err(Error::InvalidResponse));
    assert_eq!(check_response(reply(0xa1, &[0x01, 0x02, 0xff])), Err(Error::InvalidResponse));
}

#[test]
fn good_reply_is_handed_back() {
    let good = reply(0xa1, &[0x01, 0x02, 0x2b, 0xff]);
    assert_eq!(check_response(good.clone()), Ok(good));
}

#[test]
fn time_reply_is_read() {
    let r = reply(1, &[0x01, 0x02, 58, 59, 12, 31, 10, 0x07, 0xea]);
    assert_eq!(
        decode_time(&r),
        Ok(ModuleTime { second: 58, minute: 59, hour: 12, day: 31, month: 10, year: 2026 })
    );
    assert_eq!(decode_time(&reply(1, &[0x01, 0x02, 58, 59, 12, 31, 10, 0x07])), Err(Error::InvalidResponse));
}

#[test]
fn float_replies_are_read_as_bit_patterns() {
    let mut data = vec![];
    data.extend_from_slice(&21.5f32.to_le_bytes());
    data.extend_from_slice(&40.25f32.to_le_bytes());
    let (t, h) = decode_th(&reply(1, &data)).unwrap();
    assert_eq!(f32::from_bits(t), 21.5);
    assert_eq!(f32::from_bits(h), 40.25);
    assert_eq!(decode_th(&reply(1, &data[..7])), Err(Error::InvalidResponse));

    let mut data = vec![0x01, 0x02];
    data.extend_from_slice(&123.75f32.to_le_bytes());
    assert_eq!(f32::from_bits(decode_dist(&reply(1, &data)).unwrap()), 123.75);
    assert_eq!(decode_dist(&reply(1, &[0x01, 0x02, 0x04, 0x03, 0x02, 0x01])), Ok(0x01020304));
    assert_eq!(decode_dist(&reply(1, &data[..5])), Err(Error::InvalidResponse));
}

fn through_the_wire(f: RecieveRequestFrame) -> DiscoveryEvent {
    let bytes = f.gen().unwrap();
    match Frame::decode(&bytes[..]) {
        Ok(Frame::ReceiveData(r)) => DiscoveryEvent::Reply(r),
        _ => DiscoveryEvent::ReceiveFailed,
    }
}

#[test]
fn discovery_end_to_end() {
    let mut m = ModuleManager::new();
    let (phase, action) = m.discovery_mode();
    assert_eq!(phase, DiscoveryPhase::Collecting);
    let probe = match action {
        DiscoveryAction::Broadcast(f) => f,
        other => panic!("unexpected action {:?}", other),
    };
    assert_eq!(
        probe,
        TransmitRequestFrame {
            dest_addr: BROADCAST_ADDR,
            broadcast_radius: 0,
            options: 0,
            payload: vec![0x0a, 0xaa],
        }
    );
    let wire = probe.gen_with_id(1).unwrap();
    assert_eq!(&wire[17..19], &[0x0a, 0xaa]);

    let (phase, action) = m.discovery_step(phase, through_the_wire(reply(0x1111, &[0x33, 0x44])));
    assert_eq!((phase, &action), (DiscoveryPhase::Collecting, &DiscoveryAction::Receive));
    let (phase, action) = m.discovery_step(phase, through_the_wire(reply(0x2222, &[0x33, 0x44])));
    assert_eq!((phase, &action), (DiscoveryPhase::Collecting, &DiscoveryAction::Receive));

    assert_eq!(m.len(), 2);
    for (i, addr) in [0x1111u64, 0x2222].iter().enumerate() {
        let known = &m.modules()[i];
        assert_eq!(known.device.addr_64bit, *addr);
        assert_eq!(known.id, 0x3344);
        assert_eq!(known.device.node_id, "NotSet");
        assert_eq!(known.device.firmware_version, None);
        assert_eq!(known.device.hardware_version, None);
    }

    let (mut phase, mut action) = m.discovery_step(phase, DiscoveryEvent::ReceiveFailed);
    let mut asked = vec![];
    while let DiscoveryAction::Query(f) = &action {
        asked.push((f.dest_addr, f.atcmd));
        assert_eq!(f.options, RemoteCommandOptions { apply_changes: false });
        assert_eq!(f.cmd_param, None);
        let step = m.discovery_step(phase, DiscoveryEvent::Info(None));
        phase = step.0;
        action = step.1;
    }
    assert_eq!(
        asked,
        vec![
            (0x1111, *b"NI"),
            (0x1111, *b"HV"),
            (0x1111, *b"VR"),
            (0x2222, *b"NI"),
            (0x2222, *b"HV"),
            (0x2222, *b"VR"),
        ]
    );
    assert_eq!(phase, DiscoveryPhase::Finished);
    assert_eq!(action, DiscoveryAction::Done);
    assert_eq!(m.get_node_ids(), Ok(words(&["NotSet", "NotSet"])));
}

#[test]
fn discovery_enriches_what_answers() {
    let mut m = ModuleManager::new();
    m.add_if_new(module(5, 0x9999, "EARLIER"));
    let (phase, _) = m.discovery_mode();
    let (phase, _) = m.discovery_step(phase, DiscoveryEvent::Reply(reply(0x1111, &[0x00, 0x07, 9])));
    // A module that answers twice is known once.
    let (phase, _) = m.discovery_step(phase, DiscoveryEvent::Reply(reply(0x1111, &[0x00, 0x08])));
    // A reply without room for an id is passed over.
    let (phase, action) = m.discovery_step(phase, DiscoveryEvent::Reply(reply(0x3333, &[0x01])));
    assert_eq!(action, DiscoveryAction::Receive);
    assert_eq!(m.len(), 2);
    assert_eq!(m.modules()[1].id, 7);

    let answer = |atcmd: [u8; 2], data: &[u8]| {
        DiscoveryEvent::Info(Some(RemoteAtCommandResponse {
            frame_id: 1,
            source_addr: 0,
            atcmd,
            status: 0,
            command_data: Some(data.to_vec()),
        }))
    };
    let (phase, action) = m.discovery_step(phase, DiscoveryEvent::ReceiveFailed);
    assert_eq!(phase, DiscoveryPhase::Enriching { module: 0, query: InfoQuery::NodeName });
    assert_eq!(
        action,
        DiscoveryAction::Query(RemoteAtCommandFrame {
            dest_addr: 0x9999,
            options: RemoteCommandOptions { apply_changes: false },
            atcmd: *b"NI",
            cmd_param: None,
        })
    );
    // The first module: the name fails, the versions answer.
    let (phase, _) = m.discovery_step(phase, DiscoveryEvent::Info(None));
    let (phase, _) = m.discovery_step(phase, answer(*b"HV", &[0x2a, 0x40]));
    let (phase, _) = m.discovery_step(phase, answer(*b"VR", &[0x10, 0x02]));
    assert_eq!(phase, DiscoveryPhase::Enriching { module: 1, query: InfoQuery::NodeName });
    // The second: the name answers, one version is malformed, one fails.
    let (phase, _) = m.discovery_step(phase, answer(*b"NI", b"PUMP"));
    let (phase, _) = m.discovery_step(phase, answer(*b"HV", &[0x2a]));
    let (phase, action) = m.discovery_step(phase, DiscoveryEvent::Info(None));
    assert_eq!(phase, DiscoveryPhase::Finished);
    assert_eq!(action, DiscoveryAction::Done);

    let first = &m.modules()[0];
    assert_eq!(first.device.node_id, "EARLIER");
    assert_eq!(first.device.hardware_version, Some(0x2a40));
    assert_eq!(first.device.firmware_version, Some(0x1002));
    let second = &m.modules()[1];
    assert_eq!(second.device.node_id, "PUMP");
    assert_eq!(second.device.hardware_version, None);
    assert_eq!(second.device.firmware_version, None);
    assert_eq!(m.get_module("pump"), Some(1));
}

#[test]
fn discovery_without_replies_is_over_at_once() {
    let mut m = ModuleManager::new();
    let (phase, _) = m.discovery_mode();
    let (phase, action) = m.discovery_step(phase, DiscoveryEvent::ReceiveFailed);
    assert_eq!(phase, DiscoveryPhase::Finished);
    assert_eq!(action, DiscoveryAction::Done);
    let (phase, action) = m.discovery_step(phase, DiscoveryEvent::Reply(reply(1, &[1, 2])));
    assert_eq!(phase, DiscoveryPhase::Finished);
    assert_eq!(action, DiscoveryAction::Done);
    assert_eq!(m.len(), 0);
}

#[test]
fn events_that_are_not_awaited_change_nothing() {
    let mut m = ModuleManager::new();
    m.add_if_new(module(5, 0x9999, "EARLIER"));
    let (phase, action) = m.discovery_step(DiscoveryPhase::Collecting, DiscoveryEvent::Info(None));
    assert_eq!((phase, action), (DiscoveryPhase::Collecting, DiscoveryAction::Receive));
    let asking = DiscoveryPhase::Enriching { module: 0, query: InfoQuery::HardwareVersion };
    let (phase, action) = m.discovery_step(asking, DiscoveryEvent::Reply(reply(1, &[1, 2])));
    assert_eq!(phase, asking);
    assert_eq!(action, DiscoveryAction::Query(m.modules()[0].info_request(InfoQuery::HardwareVersion)));
    let (phase, _) = m.discovery_step(asking, DiscoveryEvent::ReceiveFailed);
    assert_eq!(phase, asking);
    assert_eq!(m.len(), 1);
    let beyond = DiscoveryPhase::Enriching { module: 4, query: InfoQuery::NodeName };
    let (phase, action) = m.discovery_step(beyond, DiscoveryEvent::Info(None));
    assert_eq!((phase, action), (DiscoveryPhase::Finished, DiscoveryAction::Done));
}
