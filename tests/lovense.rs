use buttplug::endpoint::Endpoint;
use buttplug::errors::{ButtplugDeviceError, ButtplugError};
use buttplug::lovense::{scale_magnitude, vibrate_command_bytes, LovenseProtocol};
use buttplug::messages::{
    ButtplugDeviceCommandMessageUnion, ButtplugMessage, ButtplugMessageUnion, KiirooCmd,
    LinearCmd, Magnitude, OkMessage, RawReadCmd, RotateCmd, RotationSubcommand, StopDeviceCmd,
    VibrateCmd, VibrateSubcommand,
};
use buttplug::protocol::{complete_command, ButtplugProtocol, ProtocolState};
use buttplug::scanning::{lovense_tx_characteristic, try_name};

fn mag(v: f64) -> Magnitude {
    Magnitude { bits: v.to_bits() }
}

fn ready() -> LovenseProtocol {
    let mut p = LovenseProtocol::new();
    assert_eq!(p.state(), ProtocolState::Uninitialized);
    let writes = p.initialize();
    assert!(writes.is_empty());
    assert_eq!(p.state(), ProtocolState::Initializing);
    p.finish_initialize(None);
    assert_eq!(p.state(), ProtocolState::Ready);
    p
}

fn stop(id: u32) -> ButtplugDeviceCommandMessageUnion {
    let mut m = StopDeviceCmd::new(0);
    m.set_id(id);
    ButtplugDeviceCommandMessageUnion::StopDeviceCmd(m)
}

fn vibrate(id: u32, speeds: Vec<f64>) -> ButtplugDeviceCommandMessageUnion {
    let subs = speeds.iter().enumerate().map(|(i, s)| VibrateSubcommand::new(i as u32, mag(*s))).collect();
    let mut m = VibrateCmd::new(2, subs);
    m.set_id(id);
    ButtplugDeviceCommandMessageUnion::VibrateCmd(m)
}

fn vibrate_bytes(p: &LovenseProtocol, speed: f64) -> Vec<u8> {
    let plan = p.parse_message(&vibrate(3, vec![speed])).unwrap();
    assert_eq!(plan.writes.len(), 1);
    plan.writes[0].data.clone()
}

#[test]
fn stop_reply_echoes_the_id() {
    let p = ready();
    let plan = p.parse_message(&stop(7)).unwrap();
    assert_eq!(plan.reply_id, 7);
    assert!(plan.writes.is_empty());
    let reply = complete_command(&plan, None).unwrap();
    assert_eq!(reply, ButtplugMessageUnion::OkMessage(OkMessage::new(7)));
    assert_eq!(reply.get_id(), 7);
}

#[test]
fn stop_twice_never_fails() {
    let p = ready();
    for _ in 0..2 {
        let plan = p.parse_message(&stop(4)).unwrap();
        assert_eq!(complete_command(&plan, None).unwrap().get_id(), 4);
        assert_eq!(p.state(), ProtocolState::Ready);
    }
}

#[test]
fn stop_is_accepted_in_every_state() {
    let fresh = LovenseProtocol::new();
    assert_eq!(fresh.parse_message(&stop(1)).unwrap().reply_id, 1);
    let mut failed = LovenseProtocol::new();
    failed.initialize();
    failed.finish_initialize(Some(ButtplugDeviceError::new("no answer")));
    assert_eq!(failed.state(), ProtocolState::Failed);
    assert_eq!(failed.parse_message(&stop(2)).unwrap().reply_id, 2);
}

#[test]
fn commands_wait_for_setup() {
    let p = LovenseProtocol::new();
    let r = p.parse_message(&vibrate(3, vec![0.5]));
    assert_eq!(
        r,
        Err(ButtplugError::ButtplugDeviceError(ButtplugDeviceError::new(
            "LovenseProtocol has not finished initializing."
        )))
    );
}

#[test]
fn initialize_only_moves_once() {
    let mut p = ready();
    assert!(p.initialize().is_empty());
    assert_eq!(p.state(), ProtocolState::Ready);
    p.finish_initialize(Some(ButtplugDeviceError::new("late")));
    assert_eq!(p.state(), ProtocolState::Ready);
}

#[test]
fn unsupported_commands_are_rejected() {
    let p = ready();
    let kiiroo = ButtplugDeviceCommandMessageUnion::KiirooCmd(KiirooCmd::new(0, "1"));
    match p.parse_message(&kiiroo) {
        Err(ButtplugError::ButtplugDeviceError(e)) => {
            assert_eq!(e.message, "LovenseProtocol does not accept KiirooCmd messages.")
        }
        other => panic!("unexpected {:?}", other),
    }
    let linear = ButtplugDeviceCommandMessageUnion::LinearCmd(LinearCmd::new(0, vec![]));
    let read = ButtplugDeviceCommandMessageUnion::RawReadCmd(RawReadCmd::new(0, Endpoint::Rx, 1, false));
    for c in [linear, read] {
        match p.parse_message(&c) {
            Err(ButtplugError::ButtplugDeviceError(e)) => {
                assert!(e.message.starts_with("LovenseProtocol does not accept "));
                assert!(e.message.contains(c.message_type()));
            }
            other => panic!("unexpected {:?}", other),
        }
    }
}

#[test]
fn vibrate_writes_scaled_level_to_tx() {
    let p = ready();
    let plan = p.parse_message(&vibrate(11, vec![0.5, 1.0])).unwrap();
    assert_eq!(plan.reply_id, 11);
    assert_eq!(plan.writes.len(), 1);
    let w = &plan.writes[0];
    assert_eq!(w.device_index, 2);
    assert_eq!(w.endpoint, Endpoint::Tx);
    assert!(!w.write_with_response);
    assert_eq!(w.data, b"Vibrate:10;".to_vec());
    assert_eq!(vibrate_bytes(&p, 1.0), b"Vibrate:20;".to_vec());
    assert_eq!(vibrate_bytes(&p, 0.0), b"Vibrate:0;".to_vec());
    assert_eq!(vibrate_bytes(&p, 0.25), b"Vibrate:5;".to_vec());
}

#[test]
fn vibrate_without_speeds_is_a_message_error() {
    let p = ready();
    match p.parse_message(&vibrate(1, vec![])) {
        Err(ButtplugError::ButtplugMessageError(e)) => assert_eq!(e.message, "VibrateCmd holds no speeds."),
        other => panic!("unexpected {:?}", other),
    }
}

#[test]
fn rotate_replies_without_writes() {
    let p = ready();
    let mut m = RotateCmd::new(0, vec![RotationSubcommand::new(0, mag(0.5), true)]);
    m.set_id(6);
    let plan = p.parse_message(&ButtplugDeviceCommandMessageUnion::RotateCmd(m)).unwrap();
    assert_eq!(plan.reply_id, 6);
    assert!(plan.writes.is_empty());
}

#[test]
fn write_failure_becomes_device_error() {
    let p = ready();
    let plan = p.parse_message(&vibrate(8, vec![0.5])).unwrap();
    let failure = ButtplugDeviceError::new("write failed");
    assert_eq!(
        complete_command(&plan, Some(failure.clone())),
        Err(ButtplugError::ButtplugDeviceError(failure))
    );
    assert_eq!(complete_command(&plan, None).unwrap().get_id(), 8);
}

#[test]
fn magnitude_rounds_half_up() {
    assert_eq!(scale_magnitude(mag(0.5), 20), 10);
    assert_eq!(scale_magnitude(mag(0.025), 20), 1);
    assert_eq!(scale_magnitude(mag(0.024), 20), 0);
    assert_eq!(scale_magnitude(mag(0.04), 20), 1);
    assert_eq!(scale_magnitude(mag(0.9751), 20), 20);
    assert_eq!(scale_magnitude(mag(0.9749), 20), 19);
    assert_eq!(scale_magnitude(mag(0.3), 20), 6);
    assert_eq!(scale_magnitude(mag(0.5), 255), 128);
    assert_eq!(scale_magnitude(mag(1.0), 255), 255);
}

#[test]
fn magnitude_edges() {
    assert_eq!(scale_magnitude(mag(0.0), 20), 0);
    assert_eq!(scale_magnitude(mag(-0.0), 20), 0);
    assert_eq!(scale_magnitude(mag(-0.5), 20), 0);
    assert_eq!(scale_magnitude(mag(f64::NAN), 20), 0);
    assert_eq!(scale_magnitude(mag(f64::INFINITY), 20), 20);
    assert_eq!(scale_magnitude(mag(2.5), 20), 20);
    assert_eq!(scale_magnitude(mag(1e-300), 20), 0);
    assert_eq!(scale_magnitude(mag(f64::MIN_POSITIVE / 2.0), 20), 0);
    assert_eq!(scale_magnitude(mag(1e-10), 0), 0);
}

#[test]
fn vibrate_command_digits() {
    assert_eq!(vibrate_command_bytes(0), b"Vibrate:0;".to_vec());
    assert_eq!(vibrate_command_bytes(9), b"Vibrate:9;".to_vec());
    assert_eq!(vibrate_command_bytes(20), b"Vibrate:20;".to_vec());
    assert_eq!(vibrate_command_bytes(100), b"Vibrate:100;".to_vec());
    assert_eq!(vibrate_command_bytes(255), b"Vibrate:255;".to_vec());
}

#[test]
fn names_are_tried_once() {
    let mut tried: Vec<String> = Vec::new();
    assert!(!try_name(&mut tried, &String::new()));
    assert!(tried.is_empty());
    assert!(try_name(&mut tried, &"LVS-Z36".to_string()));
    assert!(try_name(&mut tried, &"LVS-A011".to_string()));
    assert!(!try_name(&mut tried, &"LVS-Z36".to_string()));
    assert_eq!(tried, vec!["LVS-Z36".to_string(), "LVS-A011".to_string()]);
}

#[test]
fn tx_characteristic_is_byte_reversed() {
    assert_eq!(
        lovense_tx_characteristic(),
        vec![0x9e, 0xca, 0xdc, 0x24, 0x0e, 0xe5, 0xa9, 0xe0, 0x93, 0xf3, 0xa3, 0xb5, 0x02, 0x00, 0x40, 0x6e]
    );
}

#[test]
fn unsupported_commands_are_rejected_before_setup() {
    let p = LovenseProtocol::new();
    let kiiroo = ButtplugDeviceCommandMessageUnion::KiirooCmd(KiirooCmd::new(0, "1"));
    match p.parse_message(&kiiroo) {
        Err(ButtplugError::ButtplugDeviceError(e)) => {
            assert_eq!(e.message, "LovenseProtocol does not accept KiirooCmd messages.")
        }
        other => panic!("unexpected {:?}", other),
    }
    let mut rotate = RotateCmd::new(0, vec![]);
    rotate.set_id(4);
    assert_eq!(
        p.parse_message(&ButtplugDeviceCommandMessageUnion::RotateCmd(rotate)),
        Err(ButtplugError::ButtplugDeviceError(ButtplugDeviceError::new(
            "LovenseProtocol has not finished initializing."
        )))
    );
}

#[test]
fn handlers_echo_the_command_id() {
    let p = ready();
    let mut s = StopDeviceCmd::new(1);
    s.set_id(21);
    let first = p.handle_stop_device_cmd(&s);
    let second = p.handle_stop_device_cmd(&s);
    assert_eq!(first, second);
    assert!(first.writes.is_empty());
    assert_eq!(complete_command(&first, None).unwrap(), ButtplugMessageUnion::OkMessage(OkMessage::new(21)));
    let mut v = VibrateCmd::new(1, vec![VibrateSubcommand::new(0, mag(1.0))]);
    v.set_id(22);
    let plan = p.handle_vibrate_cmd(&v).unwrap();
    assert_eq!(complete_command(&plan, None).unwrap(), ButtplugMessageUnion::OkMessage(OkMessage::new(22)));
    let mut r = RotateCmd::new(1, vec![]);
    r.set_id(23);
    let plan = p.handle_rotate_cmd(&r);
    assert_eq!(complete_command(&plan, None).unwrap(), ButtplugMessageUnion::OkMessage(OkMessage::new(23)));
}
