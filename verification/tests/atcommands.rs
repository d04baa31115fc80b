use rustbee::atcommands::{AtCommand, AtCommands, AtReply};
use rustbee::device::{ChangesPlan, DigiMeshDevice};
use rustbee::error::Error;
use rustbee::text::{decimal_text, parse_u8, same_text};

#[test]
fn catalog_entries() {
    let enter = AtCommands::CmdMode(true).create();
    assert_eq!((enter.command, *enter.parameter, enter.rcr_len), ("+++", None, 1));
    let leave = AtCommands::CmdMode(false).create();
    assert_eq!((leave.command, *leave.parameter, leave.rcr_len), ("CN", None, 1));
    let discover = AtCommands::Discover(None).create();
    assert_eq!((discover.command, *discover.parameter, discover.rcr_len), ("ND", None, 11));
    let named = AtCommands::Discover(Some(b"NODEA"));
    let named = named.create();
    assert_eq!((named.command, *named.parameter, named.rcr_len), ("ND", Some(&b"NODEA"[..]), 11));
    let api = AtCommands::AtCmd(("AP", Some(b"1")));
    let api = api.create();
    assert_eq!((api.command, *api.parameter, api.rcr_len), ("AP", Some(&b"1"[..]), 1));
    let id = AtCommands::AtCmd(("ID", None));
    let id = id.create();
    assert_eq!((id.command, *id.parameter, id.rcr_len), ("ID", None, 1));
}

#[test]
fn guard_sequence_goes_out_bare() {
    let tx = AtCommands::CmdMode(true).create().encode().unwrap();
    assert_eq!(&tx[..], b"+++");
}

#[test]
fn commands_go_out_with_prefix_and_carriage_return() {
    let tx = AtCommands::CmdMode(false).create().encode().unwrap();
    assert_eq!(&tx[..], b"ATCN\r");
    let api = AtCommands::AtCmd(("AP", Some(b"1")));
    assert_eq!(&api.create().encode().unwrap()[..], b"ATAP1\r");
    let name = AtCommands::AtCmd(("NI", Some(b"MYREMOTE")));
    assert_eq!(&name.create().encode().unwrap()[..], b"ATNIMYREMOTE\r");
    assert_eq!(&AtCommands::Discover(None).create().encode().unwrap()[..], b"ATND\r");
    let empty = AtCommand { command: "WR", parameter: &Some(&[]), rcr_len: 1 };
    assert_eq!(&empty.encode().unwrap()[..], b"ATWR\r");
}

#[test]
fn long_commands_are_written_out_whole() {
    // One byte more than a frame payload may have: no limit of the frame
    // format holds for the text of a local command.
    let big = vec![0x31u8; 65535 - 112 + 1];
    let param = Some(&big[..]);
    let name = AtCommand { command: "NI", parameter: &param, rcr_len: 1 };
    let tx = name.encode().unwrap();
    assert_eq!(tx.len(), 2 + 2 + big.len() + 1);
    assert_eq!(&tx[..4], b"ATNI");
    assert_eq!(&tx[4..tx.len() - 1], &big[..]);
    assert_eq!(tx[tx.len() - 1], b'\r');

    let huge = vec![0x7au8; 1 << 20];
    let param = Some(&huge[..]);
    let long_name = "N".repeat(70000);
    let long = AtCommand { command: &long_name, parameter: &param, rcr_len: 1 };
    let tx = long.encode().unwrap();
    assert_eq!(tx.len(), 2 + 70000 + (1 << 20) + 1);
    assert_eq!(&tx[2..70002], long_name.as_bytes());
}

#[test]
fn guard_sequence_ignores_a_parameter() {
    let param = Some(&b"1"[..]);
    let guard = AtCommand { command: "+++", parameter: &param, rcr_len: 1 };
    assert_eq!(&guard.encode().unwrap()[..], b"+++");
}

#[test]
fn mnemonics_beyond_ascii_go_out_as_utf8() {
    let odd = AtCommand { command: "é", parameter: &None, rcr_len: 1 };
    assert_eq!(&odd.encode().unwrap()[..], &[0x41, 0x54, 0xc3, 0xa9, 0x0d]);
}

#[test]
fn reply_ends_with_its_last_carriage_return() {
    let mut reply = AtReply::new();
    assert_eq!((reply.rx_buf.len(), reply.cr_seen), (0, 0));
    assert!(!reply.feed(b'O', 1));
    assert!(!reply.feed(b'K', 1));
    assert!(reply.feed(b'\r', 1));
    assert_eq!(reply.rx_buf, b"OK\r".to_vec());
    assert_eq!(reply.cr_seen, 1);
}

#[test]
fn discovery_reply_has_eleven_fields() {
    let mut reply = AtReply::new();
    let rcr_len = AtCommands::Discover(None).create().rcr_len;
    let mut completed_at = None;
    let text = b"FFFE\r0013A200\r40522BAA\rNODEA\rFFFE\r01\r00\rC105\r101E\r\r\rextra\r";
    for (i, b) in text.iter().enumerate() {
        if reply.feed(*b, rcr_len) {
            completed_at = Some(i);
            break;
        }
    }
    assert_eq!(completed_at, Some(text.len() - 7));
    assert_eq!(reply.cr_seen, 11);
    assert_eq!(&reply.rx_buf[..], &text[..text.len() - 6]);
}

#[test]
fn reply_with_no_field_never_ends() {
    let mut reply = AtReply::new();
    assert!(!reply.feed(b'\r', 0));
    assert!(!reply.feed(b'x', 0));
    assert!(!reply.feed(b'\r', 0));
    assert_eq!(reply.cr_seen, 2);
}

#[test]
fn command_mode_is_entered_between_two_silences() {
    let mut radio = DigiMeshDevice::new();
    assert!(!radio.cmd_mode);
    let plan = radio.command_mode(true);
    assert_eq!(plan.quiet_before_ms, 1000);
    assert_eq!(plan.quiet_after_ms, 1000);
    assert_eq!(&plan.command.encode().unwrap()[..], b"+++");
    assert_eq!(plan.command.rcr_len, 1);
    radio.mode_switched(true);
    assert!(radio.cmd_mode);
    let plan = radio.command_mode(false);
    assert_eq!((plan.quiet_before_ms, plan.quiet_after_ms), (0, 0));
    assert_eq!(&plan.command.encode().unwrap()[..], b"ATCN\r");
    radio.mode_switched(false);
    assert!(!radio.cmd_mode);
}

#[test]
fn changes_are_applied_in_command_mode_only() {
    let mut radio = DigiMeshDevice::new();
    match radio.apply_changes() {
        ChangesPlan::Refused { enter, error } => {
            assert_eq!(error, Error::InvalidMode);
            assert_eq!((enter.quiet_before_ms, enter.quiet_after_ms), (1000, 1000));
            assert_eq!(&enter.command.encode().unwrap()[..], b"+++");
            assert_eq!(enter.command.rcr_len, 1);
        }
        other => panic!("unexpected plan {:?}", other),
    }
    // Asking does not switch the mode by itself.
    assert!(!radio.cmd_mode);
    radio.mode_switched(true);
    match radio.apply_changes() {
        ChangesPlan::Apply { apply, write } => {
            assert_eq!(&apply.encode().unwrap()[..], b"ATAC\r");
            assert_eq!(&write.encode().unwrap()[..], b"ATWR\r");
            assert_eq!((apply.rcr_len, write.rcr_len), (1, 1));
        }
        other => panic!("unexpected plan {:?}", other),
    }
}

#[test]
fn decimal_bytes() {
    assert_eq!(parse_u8("7"), Some(7));
    assert_eq!(parse_u8("0"), Some(0));
    assert_eq!(parse_u8("007"), Some(7));
    assert_eq!(parse_u8("+42"), Some(42));
    assert_eq!(parse_u8("255"), Some(255));
    assert_eq!(parse_u8("256"), None);
    assert_eq!(parse_u8("0000000000000000000255"), Some(255));
    assert_eq!(parse_u8("99999999999999999999999"), None);
    assert_eq!(parse_u8(""), None);
    assert_eq!(parse_u8("+"), None);
    assert_eq!(parse_u8("-1"), None);
    assert_eq!(parse_u8("++1"), None);
    assert_eq!(parse_u8("1+"), None);
    assert_eq!(parse_u8(" 1"), None);
    assert_eq!(parse_u8("1 "), None);
    assert_eq!(parse_u8("1_0"), None);
    assert_eq!(parse_u8("0x10"), None);
    assert_eq!(parse_u8("١٢"), None);
    assert_eq!(parse_u8("1é"), None);
    for n in 0..=255u8 {
        assert_eq!(parse_u8(&n.to_string()), Some(n));
        assert_eq!(parse_u8(&n.to_string()), n.to_string().parse::<u8>().ok());
    }
}

#[test]
fn texts_are_compared_by_their_characters() {
    assert!(same_text("request", "request"));
    assert!(!same_text("request", "Request"));
    assert!(!same_text("set", "sets"));
    assert!(same_text("", ""));
}

#[test]
fn bytes_are_written_without_leading_zeros() {
    assert_eq!(decimal_text(0), "0");
    assert_eq!(decimal_text(9), "9");
    assert_eq!(decimal_text(10), "10");
    assert_eq!(decimal_text(99), "99");
    assert_eq!(decimal_text(100), "100");
    assert_eq!(decimal_text(205), "205");
    for n in 0..=255u8 {
        assert_eq!(decimal_text(n), n.to_string());
        assert_eq!(parse_u8(&decimal_text(n)), Some(n));
    }
}
