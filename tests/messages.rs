use buttplug::endpoint::Endpoint;
use buttplug::envelope::{frame_message, frame_messages};
use buttplug::errors::{
    ButtplugDeviceError, ButtplugError, ButtplugHandshakeError, ButtplugMessageError,
    ButtplugPingError, ButtplugUnknownError,
};
use buttplug::messages::{
    ButtplugDeviceCommandMessageUnion, ButtplugMessage, ButtplugMessageUnion, DeviceAdded,
    DeviceList, DeviceMessageInfo, DeviceRemoved, Error, ErrorCode, FleshlightLaunchFW12Cmd,
    KiirooCmd, LinearCmd, Log, LogLevel, LovenseCmd, Magnitude, MessageAttributes, OkMessage,
    Ping, RawReadCmd, RawReading, RawWriteCmd, RequestDeviceList, RequestLog, RequestServerInfo,
    RotateCmd, RotationSubcommand, ScanningFinished, ServerInfo, SingleMotorVibrateCmd,
    StartScanning, StopAllDevices, StopDeviceCmd, StopScanning, Test, VectorSubcommand,
    VibrateCmd, VibrateSubcommand, VorzeA10CycloneCmd,
};
use std::collections::HashMap;

fn every_message() -> Vec<ButtplugMessageUnion> {
    let half = Magnitude { bits: 0.5f64.to_bits() };
    vec![
        OkMessage::new(0).as_union(),
        Error::new(ErrorCode::ErrorHandshake, "Test Error").as_union(),
        Ping::default().as_union(),
        Test::new("hello").as_union(),
        RequestLog::new(LogLevel::Warn).as_union(),
        Log::new(LogLevel::Info, "line".to_string()).as_union(),
        RequestServerInfo::new("client", 1).as_union(),
        ServerInfo::new("server", 1, 100).as_union(),
        DeviceList::default().as_union(),
        DeviceAdded::default().as_union(),
        DeviceRemoved::default().as_union(),
        StartScanning::default().as_union(),
        StopScanning::default().as_union(),
        ScanningFinished::default().as_union(),
        RequestDeviceList::default().as_union(),
        VibrateCmd::new(0, vec![VibrateSubcommand::new(0, half)]).as_union(),
        LinearCmd::new(0, vec![VectorSubcommand::new(0, 500, half)]).as_union(),
        RotateCmd::new(0, vec![RotationSubcommand::new(0, half, true)]).as_union(),
        FleshlightLaunchFW12Cmd::new(0, 50, 60).as_union(),
        LovenseCmd::new(0, "Vibrate:5;").as_union(),
        KiirooCmd::new(0, "4,").as_union(),
        VorzeA10CycloneCmd::new(0, 50, false).as_union(),
        SingleMotorVibrateCmd::new(0, half).as_union(),
        RawWriteCmd::new(0, Endpoint::Tx, vec![1, 2], true).as_union(),
        RawReadCmd::new(0, Endpoint::Rx, 4, false).as_union(),
        RawReading::new(0, Endpoint::Tx, vec![0]).as_union(),
        StopDeviceCmd::new(0).as_union(),
        StopAllDevices::default().as_union(),
    ]
}

#[test]
fn every_variant_takes_any_id() {
    let messages = every_message();
    assert_eq!(messages.len(), 28);
    for sample in messages {
        for id in [0u32, 1, 7, 12345, u32::MAX] {
            let mut m = sample.clone();
            let before = m.get_id();
            m.set_id(id);
            assert_eq!(m.get_id(), id);
            m.set_id(before);
            assert_eq!(m, sample);
        }
    }
}

#[test]
fn default_ids_follow_message_shape() {
    assert_eq!(OkMessage::new(0).get_id(), 0);
    assert_eq!(Error::new(ErrorCode::ErrorUnknown, "e").get_id(), 0);
    assert_eq!(ServerInfo::new("s", 1, 0).get_id(), 0);
    assert_eq!(Log::new(LogLevel::Off, String::new()).get_id(), 0);
    assert_eq!(DeviceList::default().get_id(), 0);
    assert_eq!(DeviceAdded::default().get_id(), 0);
    assert_eq!(ScanningFinished::default().get_id(), 0);
    assert_eq!(Ping::default().get_id(), 1);
    assert_eq!(Test::new("t").get_id(), 1);
    assert_eq!(StartScanning::default().get_id(), 1);
    assert_eq!(StopScanning::default().get_id(), 1);
    assert_eq!(RequestDeviceList::default().get_id(), 1);
    assert_eq!(RequestServerInfo::new("c", 2).get_id(), 1);
    assert_eq!(StopDeviceCmd::new(3).get_id(), 1);
    assert_eq!(RawReading::new(0, Endpoint::Tx, vec![0]).get_id(), 1);
}

#[test]
fn constructors_keep_their_arguments() {
    let info = ServerInfo::new("server", 2, 500);
    assert_eq!(info.server_name, "server");
    assert_eq!(info.message_version, 2);
    assert_eq!(info.max_ping_time, 500);
    assert_eq!(info.major_version, 0);
    let reading = RawReading::new(4, Endpoint::Tx, vec![0]);
    assert_eq!(reading.device_index, 4);
    assert_eq!(reading.endpoint, Endpoint::Tx);
    assert_eq!(reading.data, vec![0]);
    let write = RawWriteCmd::new(2, Endpoint::TxMode, vec![9], true);
    assert_eq!(write.endpoint, Endpoint::TxMode);
    assert!(write.write_with_response);
    let read = RawReadCmd::new(2, Endpoint::Rx, 16, true);
    assert_eq!(read.expected_length, 16);
    assert!(read.wait_for_data);
    let launch = FleshlightLaunchFW12Cmd::new(1, 99, 20);
    assert_eq!((launch.position, launch.speed), (99, 20));
    let vorze = VorzeA10CycloneCmd::new(1, 80, true);
    assert_eq!((vorze.speed, vorze.clockwise), (80, true));
    assert_eq!(LovenseCmd::new(1, "Vibrate:3;").command, "Vibrate:3;");
    assert_eq!(Test::new("ping").test_string, "ping");
    assert_eq!(RequestLog::new(LogLevel::Trace).log_level, LogLevel::Trace);
}

#[test]
fn error_from_device_error() {
    let e = Error::from(ButtplugError::ButtplugDeviceError(ButtplugDeviceError::new("x")));
    assert_eq!(e.get_id(), 0);
    assert_eq!(e.error_code, ErrorCode::ErrorDevice);
    assert_eq!(e.error_message, "x");
}

#[test]
fn error_from_each_category() {
    let cases = vec![
        (ButtplugError::ButtplugMessageError(ButtplugMessageError::new("m")), ErrorCode::ErrorMessage, "m"),
        (ButtplugError::ButtplugPingError(ButtplugPingError::new("p")), ErrorCode::ErrorPing, "p"),
        (ButtplugError::ButtplugHandshakeError(ButtplugHandshakeError::new("h")), ErrorCode::ErrorHandshake, "h"),
        (ButtplugError::ButtplugUnknownError(ButtplugUnknownError::new("u")), ErrorCode::ErrorUnknown, "u"),
        (ButtplugError::ButtplugDeviceError(ButtplugDeviceError::new("d")), ErrorCode::ErrorDevice, "d"),
    ];
    for (error, code, text) in cases {
        assert_eq!(error.message(), text);
        let e = Error::from(error);
        assert_eq!(e, Error::new(code, text));
    }
}

#[test]
fn error_codes_on_the_wire() {
    assert_eq!(ErrorCode::ErrorUnknown.code(), 0);
    assert_eq!(ErrorCode::ErrorHandshake.code(), 1);
    assert_eq!(ErrorCode::ErrorPing.code(), 2);
    assert_eq!(ErrorCode::ErrorMessage.code(), 3);
    assert_eq!(ErrorCode::ErrorDevice.code(), 4);
    assert_eq!(ErrorCode::from_code(1), Some(ErrorCode::ErrorHandshake));
    assert_eq!(ErrorCode::from_code(4), Some(ErrorCode::ErrorDevice));
    assert_eq!(ErrorCode::from_code(5), None);
    for v in 0u8..=4 {
        assert_eq!(ErrorCode::from_code(v).unwrap().code(), v);
    }
}

#[test]
fn log_levels_on_the_wire() {
    assert_eq!(LogLevel::Off.level(), 0);
    assert_eq!(LogLevel::Trace.level(), 6);
    assert_eq!(LogLevel::from_level(3), Some(LogLevel::Warn));
    assert_eq!(LogLevel::from_level(7), None);
    for v in 0u8..=6 {
        assert_eq!(LogLevel::from_level(v).unwrap().level(), v);
    }
}

#[test]
fn endpoint_names_are_lower_case() {
    assert_eq!(Endpoint::Tx.name(), "tx");
    assert_eq!(Endpoint::RxBLEBattery.name(), "rxblebattery");
    assert_eq!(Endpoint::TxVendorControl.name(), "txvendorcontrol");
    let all = [
        Endpoint::Command, Endpoint::Firmware, Endpoint::Rx, Endpoint::RxAccel,
        Endpoint::RxBLEBattery, Endpoint::RxPressure, Endpoint::RxTouch, Endpoint::Tx,
        Endpoint::TxMode, Endpoint::TxShock, Endpoint::TxVibrate, Endpoint::TxVendorControl,
        Endpoint::Whitelist,
    ];
    for a in all.iter() {
        assert_eq!(a.name(), format!("{:?}", a).to_lowercase());
        for b in all.iter() {
            assert_eq!(a == b, a.name() == b.name());
        }
    }
}

#[test]
fn device_info_from_device_added() {
    let mut messages = HashMap::new();
    messages.insert(
        "VibrateCmd".to_string(),
        MessageAttributes {
            feature_count: Some(1),
            step_count: Some(vec![20]),
            endpoints: None,
            max_duration: None,
            patterns: None,
            actuator_type: None,
        },
    );
    let mut added = DeviceAdded::default();
    added.device_index = 3;
    added.device_name = "Lush".to_string();
    added.device_messages = messages.clone();
    added.set_id(9);
    let info = DeviceMessageInfo::from(&added);
    assert_eq!(info.device_index, 3);
    assert_eq!(info.device_name, "Lush");
    assert_eq!(info.device_messages, messages);
}

#[test]
fn device_commands_convert_to_messages() {
    let mut c = ButtplugDeviceCommandMessageUnion::StopDeviceCmd(StopDeviceCmd::new(2));
    c.set_id(5);
    assert_eq!(c.message_type(), "StopDeviceCmd");
    let m = c.as_union();
    assert_eq!(m.get_id(), 5);
    let mut expected = StopDeviceCmd::new(2);
    expected.set_id(5);
    assert_eq!(m, ButtplugMessageUnion::StopDeviceCmd(expected));
    let k = ButtplugDeviceCommandMessageUnion::KiirooCmd(KiirooCmd::new(0, "1"));
    assert_eq!(k.message_type(), "KiirooCmd");
}

#[test]
fn envelope_of_one_and_many() {
    let ok = "{\"Ok\":{\"Id\":0}}";
    assert_eq!(frame_message(ok), "[{\"Ok\":{\"Id\":0}}]");
    assert_eq!(frame_messages(&vec![ok.to_string()]), frame_message(ok));
    assert_eq!(frame_messages(&vec!["a".to_string(), "b".to_string(), "c".to_string()]), "[a,b,c]");
    assert_eq!(frame_messages(&vec![]), "[]");
}
