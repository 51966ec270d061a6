//! The protocol's messages: one struct per message type, the closed union of all of
//! them, and the accessors that every message shares.
use crate::endpoint::Endpoint;
use crate::errors::ButtplugError;
use std::collections::HashMap;
use vstd::prelude::*;

verus! {

/// Behaviour shared by every message: its correlation id, and its conversion into the
/// closed union of all message types.
pub trait ButtplugMessage: Sized {
    /// The message's correlation id.
    spec fn spec_id(&self) -> u32;

    /// The same message with its correlation id replaced by `id`.
    spec fn spec_with_id(&self, id: u32) -> Self;

    /// Whether the value can be turned into the union (it is not the union itself).
    spec fn can_unify(&self) -> bool;

    /// The union variant that holds this message.
    spec fn spec_as_union(&self) -> ButtplugMessageUnion;

    /// Returns the id number of the message.
    fn get_id(&self) -> (r: u32)
        ensures
            r == self.spec_id(),
    ;

    /// Sets the id number of the message, leaving everything else as it was.
    fn set_id(&mut self, id: u32)
        ensures
            *final(self) == old(self).spec_with_id(id),
    ;

    /// Returns the message as a variant of the union of all messages.
    fn as_union(self) -> (r: ButtplugMessageUnion)
        requires
            self.can_unify(),
        ensures
            r == self.spec_as_union(),
    ;
}

/// A normalized quantity (a speed or a position, nominally within 0.0 to 1.0), held as
/// the bit pattern of an IEEE-754 binary64 value.
#[derive(Debug, Clone, Copy, PartialEq, Eq, Default, Structural)]
pub struct Magnitude {
    pub bits: u64,
}

/// Reports success of the request whose id it carries (the protocol's `Ok` message).
#[derive(Debug, Clone, PartialEq, Default)]
pub struct OkMessage {
    pub id: u32,
}

impl OkMessage {
    pub fn new(id: u32) -> (r: Self)
        ensures
            r.id == id,
    {
        Self { id }
    }
}

/// The category of an error message; its wire form is the number `spec_code` gives.
#[derive(Debug, Clone, Copy, PartialEq, Eq, Structural)]
pub enum ErrorCode {
    ErrorUnknown,
    ErrorHandshake,
    ErrorPing,
    ErrorMessage,
    ErrorDevice,
}

impl ErrorCode {
    pub open spec fn spec_code(self) -> u8 {
        match self {
            ErrorCode::ErrorUnknown => 0,
            ErrorCode::ErrorHandshake => 1,
            ErrorCode::ErrorPing => 2,
            ErrorCode::ErrorMessage => 3,
            ErrorCode::ErrorDevice => 4,
        }
    }

    /// The number that stands for the code on the wire.
    pub fn code(&self) -> (r: u8)
        ensures
            r == self.spec_code(),
    {
        match self {
            ErrorCode::ErrorUnknown => 0,
            ErrorCode::ErrorHandshake => 1,
            ErrorCode::ErrorPing => 2,
            ErrorCode::ErrorMessage => 3,
            ErrorCode::ErrorDevice => 4,
        }
    }

    /// The code that a wire number stands for; `None` for a number above 4.
    pub fn from_code(v: u8) -> (r: Option<ErrorCode>)
        ensures
            r matches Some(c) ==> c.spec_code() == v,
            r is None <==> v > 4,
    {
        match v {
            0 => Some(ErrorCode::ErrorUnknown),
            1 => Some(ErrorCode::ErrorHandshake),
            2 => Some(ErrorCode::ErrorPing),
            3 => Some(ErrorCode::ErrorMessage),
            4 => Some(ErrorCode::ErrorDevice),
            _ => None,
        }
    }
}

/// Error codes are wire-stable: distinct codes have distinct numbers, so reading back the
/// number written for a code gives that code.
pub proof fn lemma_error_code_round_trip(c: ErrorCode, d: ErrorCode)
    ensures
        c.spec_code() <= 4,
        c.spec_code() == d.spec_code() ==> c == d,
{
}

/// Reports a failure, as a category and a human-readable text.
#[derive(Debug, Clone, PartialEq)]
pub struct Error {
    pub id: u32,
    pub error_code: ErrorCode,
    pub error_message: String,
}

impl Error {
    pub fn new(error_code: ErrorCode, error_message: &str) -> (r: Self)
        ensures
            r.id == 0,
            r.error_code == error_code,
            r.error_message@ == error_message@,
    {
        Self { id: 0, error_code, error_message: error_message.to_owned() }
    }
}

/// The error code that stands for an error's category.
pub open spec fn category_code(e: ButtplugError) -> ErrorCode {
    match e {
        ButtplugError::ButtplugDeviceError(_) => ErrorCode::ErrorDevice,
        ButtplugError::ButtplugMessageError(_) => ErrorCode::ErrorMessage,
        ButtplugError::ButtplugPingError(_) => ErrorCode::ErrorPing,
        ButtplugError::ButtplugHandshakeError(_) => ErrorCode::ErrorHandshake,
        ButtplugError::ButtplugUnknownError(_) => ErrorCode::ErrorUnknown,
    }
}

impl From<ButtplugError> for Error {
    fn from(error: ButtplugError) -> (r: Self) {
        let code = match &error {
            ButtplugError::ButtplugDeviceError(_) => ErrorCode::ErrorDevice,
            ButtplugError::ButtplugMessageError(_) => ErrorCode::ErrorMessage,
            ButtplugError::ButtplugPingError(_) => ErrorCode::ErrorPing,
            ButtplugError::ButtplugHandshakeError(_) => ErrorCode::ErrorHandshake,
            ButtplugError::ButtplugUnknownError(_) => ErrorCode::ErrorUnknown,
        };
        let message = error.message();
        Error { id: 0, error_code: code, error_message: message }
    }
}

impl vstd::std_specs::convert::FromSpecImpl<ButtplugError> for Error {
    open spec fn obeys_from_spec() -> bool {
        true
    }

    open spec fn from_spec(error: ButtplugError) -> Error {
        Error { id: 0, error_code: category_code(error), error_message: error.spec_message() }
    }
}

/// Turning an error into an `Error` message gives id 0, the error code of the error's
/// category, and the error's text unchanged.
pub proof fn lemma_error_from_category(e: ButtplugError)
    ensures
        <Error as vstd::std_specs::convert::FromSpec<ButtplugError>>::from_spec(e) == (Error {
            id: 0,
            error_code: category_code(e),
            error_message: e.spec_message(),
        }),
        e is ButtplugDeviceError ==> category_code(e) == ErrorCode::ErrorDevice,
        e is ButtplugMessageError ==> category_code(e) == ErrorCode::ErrorMessage,
        e is ButtplugPingError ==> category_code(e) == ErrorCode::ErrorPing,
        e is ButtplugHandshakeError ==> category_code(e) == ErrorCode::ErrorHandshake,
        e is ButtplugUnknownError ==> category_code(e) == ErrorCode::ErrorUnknown,
{
}

/// Checks that the server is alive; a command, so its id defaults to 1.
#[derive(Debug, Clone, PartialEq)]
pub struct Ping {
    pub id: u32,
}

impl Default for Ping {
    fn default() -> (r: Self)
        ensures
            r.id == 1,
    {
        Self { id: 1 }
    }
}

/// Echoes a string back; used to test a connection.
#[derive(Debug, Clone, PartialEq, Default)]
pub struct Test {
    pub id: u32,
    pub test_string: String,
}

impl Test {
    pub fn new(test: &str) -> (r: Self)
        ensures
            r.id == 1,
            r.test_string@ == test@,
    {
        Self { id: 1, test_string: test.to_owned() }
    }
}

/// What a device supports for one message type; an absent field does not apply.
#[derive(Debug, Clone, PartialEq)]
pub struct MessageAttributes {
    pub feature_count: Option<u32>,
    pub step_count: Option<Vec<u32>>,
    pub endpoints: Option<Vec<Endpoint>>,
    pub max_duration: Option<Vec<u32>>,
    pub patterns: Option<Vec<Vec<String>>>,
    pub actuator_type: Option<Vec<String>>,
}

/// A connected device as a device list reports it.
#[derive(Debug, Clone, PartialEq)]
pub struct DeviceMessageInfo {
    pub device_index: u32,
    pub device_name: String,
    pub device_messages: HashMap<String, MessageAttributes>,
}

impl DeviceMessageInfo {
    /// The response-shaped projection of a device announcement: the same index, name
    /// and capabilities.
    pub fn from_device_added(device_added: &DeviceAdded) -> (r: Self)
        ensures
            r.device_index == device_added.device_index,
            r.device_name == device_added.device_name,
            r.device_messages@ == device_added.device_messages@,
    {
        Self {
            device_index: device_added.device_index,
            device_name: device_added.device_name.clone(),
            device_messages: device_added.device_messages.clone(),
        }
    }
}

impl From<&DeviceAdded> for DeviceMessageInfo {
    fn from(device_added: &DeviceAdded) -> (r: Self)
        ensures
            r.device_index == device_added.device_index,
            r.device_name == device_added.device_name,
            r.device_messages@ == device_added.device_messages@,
    {
        DeviceMessageInfo::from_device_added(device_added)
    }
}

impl vstd::std_specs::convert::FromSpecImpl<&DeviceAdded> for DeviceMessageInfo {
    // Maps with equal contents need not be equal values, so `from` states its result
    // field by field, over the map's contents, rather than through `from_spec`.
    open spec fn obeys_from_spec() -> bool {
        false
    }

    open spec fn from_spec(device_added: &DeviceAdded) -> DeviceMessageInfo {
        DeviceMessageInfo {
            device_index: device_added.device_index,
            device_name: device_added.device_name,
            device_messages: device_added.device_messages,
        }
    }
}

/// The devices that are connected now.
#[derive(Debug, Clone, PartialEq, Default)]
pub struct DeviceList {
    pub id: u32,
    pub devices: Vec<DeviceMessageInfo>,
}

/// Announces a newly connected device and what it supports.
#[derive(Debug, Clone, PartialEq, Default)]
pub struct DeviceAdded {
    pub id: u32,
    pub device_index: u32,
    pub device_name: String,
    pub device_messages: HashMap<String, MessageAttributes>,
}

/// Announces that a device went away.
#[derive(Debug, Clone, PartialEq, Default)]
pub struct DeviceRemoved {
    pub id: u32,
    pub device_index: u32,
}

/// Asks the server to look for devices.
#[derive(Debug, Clone, PartialEq)]
pub struct StartScanning {
    pub id: u32,
}

impl Default for StartScanning {
    fn default() -> (r: Self)
        ensures
            r.id == 1,
    {
        Self { id: 1 }
    }
}

/// Asks the server to stop looking for devices.
#[derive(Debug, Clone, PartialEq)]
pub struct StopScanning {
    pub id: u32,
}

impl Default for StopScanning {
    fn default() -> (r: Self)
        ensures
            r.id == 1,
    {
        Self { id: 1 }
    }
}

/// Announces that the server has stopped looking for devices.
#[derive(Debug, Clone, PartialEq, Default)]
pub struct ScanningFinished {
    pub id: u32,
}

/// Asks for the list of connected devices.
#[derive(Debug, Clone, PartialEq)]
pub struct RequestDeviceList {
    pub id: u32,
}

impl Default for RequestDeviceList {
    fn default() -> (r: Self)
        ensures
            r.id == 1,
    {
        Self { id: 1 }
    }
}

/// Opens a session: the client's name and the message version it speaks.
#[derive(Debug, Clone, PartialEq, Default)]
pub struct RequestServerInfo {
    pub id: u32,
    pub client_name: String,
    pub message_version: u32,
}

impl RequestServerInfo {
    pub fn new(client_name: &str, message_version: u32) -> (r: Self)
        ensures
            r.id == 1,
            r.client_name@ == client_name@,
            r.message_version == message_version,
    {
        Self { id: 1, client_name: client_name.to_owned(), message_version }
    }
}

/// Describes the server to a client that opened a session.
#[derive(Debug, Clone, PartialEq, Default)]
pub struct ServerInfo {
    pub id: u32,
    pub major_version: u32,
    pub minor_version: u32,
    pub build_version: u32,
    pub message_version: u32,
    pub max_ping_time: u32,
    pub server_name: String,
}

impl ServerInfo {
    pub fn new(server_name: &str, message_version: u32, max_ping_time: u32) -> (r: Self)
        ensures
            r.id == 0,
            r.major_version == 0,
            r.minor_version == 0,
            r.build_version == 0,
            r.message_version == message_version,
            r.max_ping_time == max_ping_time,
            r.server_name@ == server_name@,
    {
        Self {
            id: 0,
            major_version: 0,
            minor_version: 0,
            build_version: 0,
            message_version,
            max_ping_time,
            server_name: server_name.to_owned(),
        }
    }
}

/// How much the server logs, from nothing to everything; its wire form is the number
/// `spec_level` gives.
#[derive(Debug, Clone, Copy, PartialEq, Eq, Structural)]
pub enum LogLevel {
    Off,
    Fatal,
    Error,
    Warn,
    Info,
    Debug,
    Trace,
}

impl LogLevel {
    pub open spec fn spec_level(self) -> u8 {
        match self {
            LogLevel::Off => 0,
            LogLevel::Fatal => 1,
            LogLevel::Error => 2,
            LogLevel::Warn => 3,
            LogLevel::Info => 4,
            LogLevel::Debug => 5,
            LogLevel::Trace => 6,
        }
    }

    /// The number that stands for the level on the wire.
    pub fn level(&self) -> (r: u8)
        ensures
            r == self.spec_level(),
    {
        match self {
            LogLevel::Off => 0,
            LogLevel::Fatal => 1,
            LogLevel::Error => 2,
            LogLevel::Warn => 3,
            LogLevel::Info => 4,
            LogLevel::Debug => 5,
            LogLevel::Trace => 6,
        }
    }

    /// The level that a wire number stands for; `None` for a number above 6.
    pub fn from_level(v: u8) -> (r: Option<LogLevel>)
        ensures
            r matches Some(l) ==> l.spec_level() == v,
            r is None <==> v > 6,
    {
        match v {
            0 => Some(LogLevel::Off),
            1 => Some(LogLevel::Fatal),
            2 => Some(LogLevel::Error),
            3 => Some(LogLevel::Warn),
            4 => Some(LogLevel::Info),
            5 => Some(LogLevel::Debug),
            6 => Some(LogLevel::Trace),
            _ => None,
        }
    }
}

/// Log levels are wire-stable: distinct levels have distinct numbers, so reading back the
/// number written for a level gives that level.
pub proof fn lemma_log_level_round_trip(l: LogLevel, m: LogLevel)
    ensures
        l.spec_level() <= 6,
        l.spec_level() == m.spec_level() ==> l == m,
{
}

/// Asks the server to forward its log at the given level.
#[derive(Debug, Clone, PartialEq)]
pub struct RequestLog {
    pub id: u32,
    pub log_level: LogLevel,
}

impl RequestLog {
    pub fn new(log_level: LogLevel) -> (r: Self)
        ensures
            r.id == 1,
            r.log_level == log_level,
    {
        Self { id: 1, log_level }
    }
}

/// One line of the server's log.
#[derive(Debug, Clone, PartialEq)]
pub struct Log {
    pub id: u32,
    pub log_level: LogLevel,
    pub log_message: String,
}

impl Log {
    pub fn new(log_level: LogLevel, log_message: String) -> (r: Self)
        ensures
            r.id == 0,
            r.log_level == log_level,
            r.log_message == log_message,
    {
        Self { id: 0, log_level, log_message }
    }
}

/// Stops every actuator of one device.
#[derive(Debug, Clone, PartialEq, Default)]
pub struct StopDeviceCmd {
    pub id: u32,
    pub device_index: u32,
}

impl StopDeviceCmd {
    pub fn new(device_index: u32) -> (r: Self)
        ensures
            r.id == 1,
            r.device_index == device_index,
    {
        Self { id: 1, device_index }
    }
}

/// Stops every connected device.
#[derive(Debug, Clone, PartialEq, Default)]
pub struct StopAllDevices {
    pub id: u32,
}

/// The speed of one vibration motor.
#[derive(Debug, Clone, Copy, PartialEq, Default)]
pub struct VibrateSubcommand {
    pub index: u32,
    pub speed: Magnitude,
}

impl VibrateSubcommand {
    pub fn new(index: u32, speed: Magnitude) -> (r: Self)
        ensures
            r.index == index,
            r.speed == speed,
    {
        Self { index, speed }
    }
}

/// Sets the speeds of a device's vibration motors.
#[derive(Debug, Clone, PartialEq, Default)]
pub struct VibrateCmd {
    pub id: u32,
    pub device_index: u32,
    pub speeds: Vec<VibrateSubcommand>,
}

impl VibrateCmd {
    pub fn new(device_index: u32, speeds: Vec<VibrateSubcommand>) -> (r: Self)
        ensures
            r.id == 1,
            r.device_index == device_index,
            r.speeds == speeds,
    {
        Self { id: 1, device_index, speeds }
    }
}

/// A move of one linear actuator to a position over a duration in milliseconds.
#[derive(Debug, Clone, Copy, PartialEq, Default)]
pub struct VectorSubcommand {
    pub index: u32,
    pub duration: u32,
    pub position: Magnitude,
}

impl VectorSubcommand {
    pub fn new(index: u32, duration: u32, position: Magnitude) -> (r: Self)
        ensures
            r.index == index,
            r.duration == duration,
            r.position == position,
    {
        Self { index, duration, position }
    }
}

/// Moves a device's linear actuators.
#[derive(Debug, Clone, PartialEq, Default)]
pub struct LinearCmd {
    pub id: u32,
    pub device_index: u32,
    pub vectors: Vec<VectorSubcommand>,
}

impl LinearCmd {
    pub fn new(device_index: u32, vectors: Vec<VectorSubcommand>) -> (r: Self)
        ensures
            r.id == 1,
            r.device_index == device_index,
            r.vectors == vectors,
    {
        Self { id: 1, device_index, vectors }
    }
}

/// The speed and direction of one rotator.
#[derive(Debug, Clone, Copy, PartialEq, Default)]
pub struct RotationSubcommand {
    pub index: u32,
    pub speed: Magnitude,
    pub clockwise: bool,
}

impl RotationSubcommand {
    pub fn new(index: u32, speed: Magnitude, clockwise: bool) -> (r: Self)
        ensures
            r.index == index,
            r.speed == speed,
            r.clockwise == clockwise,
    {
        Self { index, speed, clockwise }
    }
}

/// Sets the speeds and directions of a device's rotators.
#[derive(Debug, Clone, PartialEq, Default)]
pub struct RotateCmd {
    pub id: u32,
    pub device_index: u32,
    pub rotations: Vec<RotationSubcommand>,
}

impl RotateCmd {
    pub fn new(device_index: u32, rotations: Vec<RotationSubcommand>) -> (r: Self)
        ensures
            r.id == 1,
            r.device_index == device_index,
            r.rotations == rotations,
    {
        Self { id: 1, device_index, rotations }
    }
}

/// The raw position and speed command of the Fleshlight Launch firmware 1.2.
#[derive(Debug, Clone, PartialEq, Default)]
pub struct FleshlightLaunchFW12Cmd {
    pub id: u32,
    pub device_index: u32,
    pub position: u8,
    pub speed: u8,
}

impl FleshlightLaunchFW12Cmd {
    pub fn new(device_index: u32, position: u8, speed: u8) -> (r: Self)
        ensures
            r.id == 1,
            r.device_index == device_index,
            r.position == position,
            r.speed == speed,
    {
        Self { id: 1, device_index, position, speed }
    }
}

/// A command string in Lovense's own grammar, passed through to the device.
#[derive(Debug, Clone, PartialEq)]
pub struct LovenseCmd {
    pub id: u32,
    pub device_index: u32,
    pub command: String,
}

impl LovenseCmd {
    pub fn new(device_index: u32, command: &str) -> (r: Self)
        ensures
            r.id == 1,
            r.device_index == device_index,
            r.command@ == command@,
    {
        Self { id: 1, device_index, command: command.to_owned() }
    }
}

/// A command string in Kiiroo's own grammar, passed through to the device.
#[derive(Debug, Clone, PartialEq)]
pub struct KiirooCmd {
    pub id: u32,
    pub device_index: u32,
    pub command: String,
}

impl KiirooCmd {
    pub fn new(device_index: u32, command: &str) -> (r: Self)
        ensures
            r.id == 1,
            r.device_index == device_index,
            r.command@ == command@,
    {
        Self { id: 1, device_index, command: command.to_owned() }
    }
}

/// The raw speed and direction command of the Vorze A10 Cyclone.
#[derive(Debug, Clone, PartialEq, Default)]
pub struct VorzeA10CycloneCmd {
    pub id: u32,
    pub device_index: u32,
    pub speed: u32,
    pub clockwise: bool,
}

impl VorzeA10CycloneCmd {
    pub fn new(device_index: u32, speed: u32, clockwise: bool) -> (r: Self)
        ensures
            r.id == 1,
            r.device_index == device_index,
            r.speed == speed,
            r.clockwise == clockwise,
    {
        Self { id: 1, device_index, speed, clockwise }
    }
}

/// Sets every vibration motor of a device to one speed.
#[derive(Debug, Clone, PartialEq, Default)]
pub struct SingleMotorVibrateCmd {
    pub id: u32,
    pub device_index: u32,
    pub speed: Magnitude,
}

impl SingleMotorVibrateCmd {
    pub fn new(device_index: u32, speed: Magnitude) -> (r: Self)
        ensures
            r.id == 1,
            r.device_index == device_index,
            r.speed == speed,
    {
        Self { id: 1, device_index, speed }
    }
}

/// Writes raw bytes to one of a device's channels.
#[derive(Debug, Clone, PartialEq)]
pub struct RawWriteCmd {
    pub id: u32,
    pub device_index: u32,
    pub endpoint: Endpoint,
    pub data: Vec<u8>,
    pub write_with_response: bool,
}

impl RawWriteCmd {
    pub fn new(device_index: u32, endpoint: Endpoint, data: Vec<u8>, write_with_response: bool) -> (r: Self)
        ensures
            r.id == 1,
            r.device_index == device_index,
            r.endpoint == endpoint,
            r.data == data,
            r.write_with_response == write_with_response,
    {
        Self { id: 1, device_index, endpoint, data, write_with_response }
    }
}

/// Reads raw bytes from one of a device's channels.
#[derive(Debug, Clone, PartialEq)]
pub struct RawReadCmd {
    pub id: u32,
    pub device_index: u32,
    pub endpoint: Endpoint,
    pub expected_length: u32,
    pub wait_for_data: bool,
}

impl RawReadCmd {
    pub fn new(device_index: u32, endpoint: Endpoint, expected_length: u32, wait_for_data: bool) -> (r: Self)
        ensures
            r.id == 1,
            r.device_index == device_index,
            r.endpoint == endpoint,
            r.expected_length == expected_length,
            r.wait_for_data == wait_for_data,
    {
        Self { id: 1, device_index, endpoint, expected_length, wait_for_data }
    }
}

/// Raw bytes that were read from one of a device's channels.
#[derive(Debug, Clone, PartialEq)]
pub struct RawReading {
    pub id: u32,
    pub device_index: u32,
    pub endpoint: Endpoint,
    pub data: Vec<u8>,
}

impl RawReading {
    pub fn new(device_index: u32, endpoint: Endpoint, data: Vec<u8>) -> (r: Self)
        ensures
            r.id == 1,
            r.device_index == device_index,
            r.endpoint == endpoint,
            r.data == data,
    {
        Self { id: 1, device_index, endpoint, data }
    }
}

/// The closed union of every message type; a transmission carries a list of these.
#[derive(Debug, Clone, PartialEq)]
pub enum ButtplugMessageUnion {
    OkMessage(OkMessage),
    Error(Error),
    Ping(Ping),
    Test(Test),
    RequestLog(RequestLog),
    Log(Log),
    RequestServerInfo(RequestServerInfo),
    ServerInfo(ServerInfo),
    DeviceList(DeviceList),
    DeviceAdded(DeviceAdded),
    DeviceRemoved(DeviceRemoved),
    StartScanning(StartScanning),
    StopScanning(StopScanning),
    ScanningFinished(ScanningFinished),
    RequestDeviceList(RequestDeviceList),
    VibrateCmd(VibrateCmd),
    LinearCmd(LinearCmd),
    RotateCmd(RotateCmd),
    FleshlightLaunchFW12Cmd(FleshlightLaunchFW12Cmd),
    LovenseCmd(LovenseCmd),
    KiirooCmd(KiirooCmd),
    VorzeA10CycloneCmd(VorzeA10CycloneCmd),
    SingleMotorVibrateCmd(SingleMotorVibrateCmd),
    RawWriteCmd(RawWriteCmd),
    RawReadCmd(RawReadCmd),
    RawReading(RawReading),
    StopDeviceCmd(StopDeviceCmd),
    StopAllDevices(StopAllDevices),
}

/// The messages that command one device: those a vendor protocol is handed.
#[derive(Debug, Clone, PartialEq)]
pub enum ButtplugDeviceCommandMessageUnion {
    VibrateCmd(VibrateCmd),
    LinearCmd(LinearCmd),
    RotateCmd(RotateCmd),
    FleshlightLaunchFW12Cmd(FleshlightLaunchFW12Cmd),
    LovenseCmd(LovenseCmd),
    KiirooCmd(KiirooCmd),
    VorzeA10CycloneCmd(VorzeA10CycloneCmd),
    SingleMotorVibrateCmd(SingleMotorVibrateCmd),
    RawWriteCmd(RawWriteCmd),
    RawReadCmd(RawReadCmd),
    StopDeviceCmd(StopDeviceCmd),
}

impl ButtplugDeviceCommandMessageUnion {
    /// The protocol name of the command's message type.
    pub open spec fn spec_message_type(&self) -> Seq<char> {
        match self {
            ButtplugDeviceCommandMessageUnion::VibrateCmd(_) => "VibrateCmd"@,
            ButtplugDeviceCommandMessageUnion::LinearCmd(_) => "LinearCmd"@,
            ButtplugDeviceCommandMessageUnion::RotateCmd(_) => "RotateCmd"@,
            ButtplugDeviceCommandMessageUnion::FleshlightLaunchFW12Cmd(_) => "FleshlightLaunchFW12Cmd"@,
            ButtplugDeviceCommandMessageUnion::LovenseCmd(_) => "LovenseCmd"@,
            ButtplugDeviceCommandMessageUnion::KiirooCmd(_) => "KiirooCmd"@,
            ButtplugDeviceCommandMessageUnion::VorzeA10CycloneCmd(_) => "VorzeA10CycloneCmd"@,
            ButtplugDeviceCommandMessageUnion::SingleMotorVibrateCmd(_) => "SingleMotorVibrateCmd"@,
            ButtplugDeviceCommandMessageUnion::RawWriteCmd(_) => "RawWriteCmd"@,
            ButtplugDeviceCommandMessageUnion::RawReadCmd(_) => "RawReadCmd"@,
            ButtplugDeviceCommandMessageUnion::StopDeviceCmd(_) => "StopDeviceCmd"@,
        }
    }

    /// Returns the protocol name of the command's message type.
    pub fn message_type(&self) -> (r: &'static str)
        ensures
            r@ == self.spec_message_type(),
    {
        match self {
            ButtplugDeviceCommandMessageUnion::VibrateCmd(_) => "VibrateCmd",
            ButtplugDeviceCommandMessageUnion::LinearCmd(_) => "LinearCmd",
            ButtplugDeviceCommandMessageUnion::RotateCmd(_) => "RotateCmd",
            ButtplugDeviceCommandMessageUnion::FleshlightLaunchFW12Cmd(_) => "FleshlightLaunchFW12Cmd",
            ButtplugDeviceCommandMessageUnion::LovenseCmd(_) => "LovenseCmd",
            ButtplugDeviceCommandMessageUnion::KiirooCmd(_) => "KiirooCmd",
            ButtplugDeviceCommandMessageUnion::VorzeA10CycloneCmd(_) => "VorzeA10CycloneCmd",
            ButtplugDeviceCommandMessageUnion::SingleMotorVibrateCmd(_) => "SingleMotorVibrateCmd",
            ButtplugDeviceCommandMessageUnion::RawWriteCmd(_) => "RawWriteCmd",
            ButtplugDeviceCommandMessageUnion::RawReadCmd(_) => "RawReadCmd",
            ButtplugDeviceCommandMessageUnion::StopDeviceCmd(_) => "StopDeviceCmd",
        }
    }
}

} // verus!
