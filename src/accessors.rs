//! The id accessors and the union conversion of every message type.
use crate::messages::{
    ButtplugMessage, ButtplugMessageUnion, ButtplugDeviceCommandMessageUnion, OkMessage,
    Error, Ping, Test, RequestLog, Log, RequestServerInfo, ServerInfo, DeviceList,
    DeviceAdded, DeviceRemoved, StartScanning, StopScanning, ScanningFinished,
    RequestDeviceList, VibrateCmd, LinearCmd, RotateCmd, FleshlightLaunchFW12Cmd,
    LovenseCmd, KiirooCmd, VorzeA10CycloneCmd, SingleMotorVibrateCmd, RawWriteCmd,
    RawReadCmd, RawReading, StopDeviceCmd, StopAllDevices,
};
use vstd::prelude::*;

verus! {

impl ButtplugMessage for OkMessage {
    open spec fn spec_id(&self) -> u32 {
        self.id
    }

    open spec fn spec_with_id(&self, id: u32) -> Self {
        OkMessage { id, ..*self }
    }

    open spec fn can_unify(&self) -> bool {
        true
    }

    open spec fn spec_as_union(&self) -> ButtplugMessageUnion {
        ButtplugMessageUnion::OkMessage(*self)
    }

    fn get_id(&self) -> (r: u32) {
        self.id
    }

    fn set_id(&mut self, id: u32) {
        self.id = id;
    }

    fn as_union(self) -> (r: ButtplugMessageUnion) {
        ButtplugMessageUnion::OkMessage(self)
    }
}

impl ButtplugMessage for Error {
    open spec fn spec_id(&self) -> u32 {
        self.id
    }

    open spec fn spec_with_id(&self, id: u32) -> Self {
        Error { id, ..*self }
    }

    open spec fn can_unify(&self) -> bool {
        true
    }

    open spec fn spec_as_union(&self) -> ButtplugMessageUnion {
        ButtplugMessageUnion::Error(*self)
    }

    fn get_id(&self) -> (r: u32) {
        self.id
    }

    fn set_id(&mut self, id: u32) {
        self.id = id;
    }

    fn as_union(self) -> (r: ButtplugMessageUnion) {
        ButtplugMessageUnion::Error(self)
    }
}

impl ButtplugMessage for Ping {
    open spec fn spec_id(&self) -> u32 {
        self.id
    }

    open spec fn spec_with_id(&self, id: u32) -> Self {
        Ping { id, ..*self }
    }

    open spec fn can_unify(&self) -> bool {
        true
    }

    open spec fn spec_as_union(&self) -> ButtplugMessageUnion {
        ButtplugMessageUnion::Ping(*self)
    }

    fn get_id(&self) -> (r: u32) {
        self.id
    }

    fn set_id(&mut self, id: u32) {
        self.id = id;
    }

    fn as_union(self) -> (r: ButtplugMessageUnion) {
        ButtplugMessageUnion::Ping(self)
    }
}

impl ButtplugMessage for Test {
    open spec fn spec_id(&self) -> u32 {
        self.id
    }

    open spec fn spec_with_id(&self, id: u32) -> Self {
        Test { id, ..*self }
    }

    open spec fn can_unify(&self) -> bool {
        true
    }

    open spec fn spec_as_union(&self) -> ButtplugMessageUnion {
        ButtplugMessageUnion::Test(*self)
    }

    fn get_id(&self) -> (r: u32) {
        self.id
    }

    fn set_id(&mut self, id: u32) {
        self.id = id;
    }

    fn as_union(self) -> (r: ButtplugMessageUnion) {
        ButtplugMessageUnion::Test(self)
    }
}

impl ButtplugMessage for RequestLog {
    open spec fn spec_id(&self) -> u32 {
        self.id
    }

    open spec fn spec_with_id(&self, id: u32) -> Self {
        RequestLog { id, ..*self }
    }

    open spec fn can_unify(&self) -> bool {
        true
    }

    open spec fn spec_as_union(&self) -> ButtplugMessageUnion {
        ButtplugMessageUnion::RequestLog(*self)
    }

    fn get_id(&self) -> (r: u32) {
        self.id
    }

    fn set_id(&mut self, id: u32) {
        self.id = id;
    }

    fn as_union(self) -> (r: ButtplugMessageUnion) {
        ButtplugMessageUnion::RequestLog(self)
    }
}

impl ButtplugMessage for Log {
    open spec fn spec_id(&self) -> u32 {
        self.id
    }

    open spec fn spec_with_id(&self, id: u32) -> Self {
        Log { id, ..*self }
    }

    open spec fn can_unify(&self) -> bool {
        true
    }

    open spec fn spec_as_union(&self) -> ButtplugMessageUnion {
        ButtplugMessageUnion::Log(*self)
    }

    fn get_id(&self) -> (r: u32) {
        self.id
    }

    fn set_id(&mut self, id: u32) {
        self.id = id;
    }

    fn as_union(self) -> (r: ButtplugMessageUnion) {
        ButtplugMessageUnion::Log(self)
    }
}

impl ButtplugMessage for RequestServerInfo {
    open spec fn spec_id(&self) -> u32 {
        self.id
    }

    open spec fn spec_with_id(&self, id: u32) -> Self {
        RequestServerInfo { id, ..*self }
    }

    open spec fn can_unify(&self) -> bool {
        true
    }

    open spec fn spec_as_union(&self) -> ButtplugMessageUnion {
        ButtplugMessageUnion::RequestServerInfo(*self)
    }

    fn get_id(&self) -> (r: u32) {
        self.id
    }

    fn set_id(&mut self, id: u32) {
        self.id = id;
    }

    fn as_union(self) -> (r: ButtplugMessageUnion) {
        ButtplugMessageUnion::RequestServerInfo(self)
    }
}

impl ButtplugMessage for ServerInfo {
    open spec fn spec_id(&self) -> u32 {
        self.id
    }

    open spec fn spec_with_id(&self, id: u32) -> Self {
        ServerInfo { id, ..*self }
    }

    open spec fn can_unify(&self) -> bool {
        true
    }

    open spec fn spec_as_union(&self) -> ButtplugMessageUnion {
        ButtplugMessageUnion::ServerInfo(*self)
    }

    fn get_id(&self) -> (r: u32) {
        self.id
    }

    fn set_id(&mut self, id: u32) {
        self.id = id;
    }

    fn as_union(self) -> (r: ButtplugMessageUnion) {
        ButtplugMessageUnion::ServerInfo(self)
    }
}

impl ButtplugMessage for DeviceList {
    open spec fn spec_id(&self) -> u32 {
        self.id
    }

    open spec fn spec_with_id(&self, id: u32) -> Self {
        DeviceList { id, ..*self }
    }

    open spec fn can_unify(&self) -> bool {
        true
    }

    open spec fn spec_as_union(&self) -> ButtplugMessageUnion {
        ButtplugMessageUnion::DeviceList(*self)
    }

    fn get_id(&self) -> (r: u32) {
        self.id
    }

    fn set_id(&mut self, id: u32) {
        self.id = id;
    }

    fn as_union(self) -> (r: ButtplugMessageUnion) {
        ButtplugMessageUnion::DeviceList(self)
    }
}

impl ButtplugMessage for DeviceAdded {
    open spec fn spec_id(&self) -> u32 {
        self.id
    }

    open spec fn spec_with_id(&self, id: u32) -> Self {
        DeviceAdded { id, ..*self }
    }

    open spec fn can_unify(&self) -> bool {
        true
    }

    open spec fn spec_as_union(&self) -> ButtplugMessageUnion {
        ButtplugMessageUnion::DeviceAdded(*self)
    }

    fn get_id(&self) -> (r: u32) {
        self.id
    }

    fn set_id(&mut self, id: u32) {
        self.id = id;
    }

    fn as_union(self) -> (r: ButtplugMessageUnion) {
        ButtplugMessageUnion::DeviceAdded(self)
    }
}

impl ButtplugMessage for DeviceRemoved {
    open spec fn spec_id(&self) -> u32 {
        self.id
    }

    open spec fn spec_with_id(&self, id: u32) -> Self {
        DeviceRemoved { id, ..*self }
    }

    open spec fn can_unify(&self) -> bool {
        true
    }

    open spec fn spec_as_union(&self) -> ButtplugMessageUnion {
        ButtplugMessageUnion::DeviceRemoved(*self)
    }

    fn get_id(&self) -> (r: u32) {
        self.id
    }

    fn set_id(&mut self, id: u32) {
        self.id = id;
    }

    fn as_union(self) -> (r: ButtplugMessageUnion) {
        ButtplugMessageUnion::DeviceRemoved(self)
    }
}

impl ButtplugMessage for StartScanning {
    open spec fn spec_id(&self) -> u32 {
        self.id
    }

    open spec fn spec_with_id(&self, id: u32) -> Self {
        StartScanning { id, ..*self }
    }

    open spec fn can_unify(&self) -> bool {
        true
    }

    open spec fn spec_as_union(&self) -> ButtplugMessageUnion {
        ButtplugMessageUnion::StartScanning(*self)
    }

    fn get_id(&self) -> (r: u32) {
        self.id
    }

    fn set_id(&mut self, id: u32) {
        self.id = id;
    }

    fn as_union(self) -> (r: ButtplugMessageUnion) {
        ButtplugMessageUnion::StartScanning(self)
    }
}

impl ButtplugMessage for StopScanning {
    open spec fn spec_id(&self) -> u32 {
        self.id
    }

    open spec fn spec_with_id(&self, id: u32) -> Self {
        StopScanning { id, ..*self }
    }

    open spec fn can_unify(&self) -> bool {
        true
    }

    open spec fn spec_as_union(&self) -> ButtplugMessageUnion {
        ButtplugMessageUnion::StopScanning(*self)
    }

    fn get_id(&self) -> (r: u32) {
        self.id
    }

    fn set_id(&mut self, id: u32) {
        self.id = id;
    }

    fn as_union(self) -> (r: ButtplugMessageUnion) {
        ButtplugMessageUnion::StopScanning(self)
    }
}

impl ButtplugMessage for ScanningFinished {
    open spec fn spec_id(&self) -> u32 {
        self.id
    }

    open spec fn spec_with_id(&self, id: u32) -> Self {
        ScanningFinished { id, ..*self }
    }

    open spec fn can_unify(&self) -> bool {
        true
    }

    open spec fn spec_as_union(&self) -> ButtplugMessageUnion {
        ButtplugMessageUnion::ScanningFinished(*self)
    }

    fn get_id(&self) -> (r: u32) {
        self.id
    }

    fn set_id(&mut self, id: u32) {
        self.id = id;
    }

    fn as_union(self) -> (r: ButtplugMessageUnion) {
        ButtplugMessageUnion::ScanningFinished(self)
    }
}

impl ButtplugMessage for RequestDeviceList {
    open spec fn spec_id(&self) -> u32 {
        self.id
    }

    open spec fn spec_with_id(&self, id: u32) -> Self {
        RequestDeviceList { id, ..*self }
    }

    open spec fn can_unify(&self) -> bool {
        true
    }

    open spec fn spec_as_union(&self) -> ButtplugMessageUnion {
        ButtplugMessageUnion::RequestDeviceList(*self)
    }

    fn get_id(&self) -> (r: u32) {
        self.id
    }

    fn set_id(&mut self, id: u32) {
        self.id = id;
    }

    fn as_union(self) -> (r: ButtplugMessageUnion) {
        ButtplugMessageUnion::RequestDeviceList(self)
    }
}

impl ButtplugMessage for VibrateCmd {
    open spec fn spec_id(&self) -> u32 {
        self.id
    }

    open spec fn spec_with_id(&self, id: u32) -> Self {
        VibrateCmd { id, ..*self }
    }

    open spec fn can_unify(&self) -> bool {
        true
    }

    open spec fn spec_as_union(&self) -> ButtplugMessageUnion {
        ButtplugMessageUnion::VibrateCmd(*self)
    }

    fn get_id(&self) -> (r: u32) {
        self.id
    }

    fn set_id(&mut self, id: u32) {
        self.id = id;
    }

    fn as_union(self) -> (r: ButtplugMessageUnion) {
        ButtplugMessageUnion::VibrateCmd(self)
    }
}

impl ButtplugMessage for LinearCmd {
    open spec fn spec_id(&self) -> u32 {
        self.id
    }

    open spec fn spec_with_id(&self, id: u32) -> Self {
        LinearCmd { id, ..*self }
    }

    open spec fn can_unify(&self) -> bool {
        true
    }

    open spec fn spec_as_union(&self) -> ButtplugMessageUnion {
        ButtplugMessageUnion::LinearCmd(*self)
    }

    fn get_id(&self) -> (r: u32) {
        self.id
    }

    fn set_id(&mut self, id: u32) {
        self.id = id;
    }

    fn as_union(self) -> (r: ButtplugMessageUnion) {
        ButtplugMessageUnion::LinearCmd(self)
    }
}

impl ButtplugMessage for RotateCmd {
    open spec fn spec_id(&self) -> u32 {
        self.id
    }

    open spec fn spec_with_id(&self, id: u32) -> Self {
        RotateCmd { id, ..*self }
    }

    open spec fn can_unify(&self) -> bool {
        true
    }

    open spec fn spec_as_union(&self) -> ButtplugMessageUnion {
        ButtplugMessageUnion::RotateCmd(*self)
    }

    fn get_id(&self) -> (r: u32) {
        self.id
    }

    fn set_id(&mut self, id: u32) {
        self.id = id;
    }

    fn as_union(self) -> (r: ButtplugMessageUnion) {
        ButtplugMessageUnion::RotateCmd(self)
    }
}

impl ButtplugMessage for FleshlightLaunchFW12Cmd {
    open spec fn spec_id(&self) -> u32 {
        self.id
    }

    open spec fn spec_with_id(&self, id: u32) -> Self {
        FleshlightLaunchFW12Cmd { id, ..*self }
    }

    open spec fn can_unify(&self) -> bool {
        true
    }

    open spec fn spec_as_union(&self) -> ButtplugMessageUnion {
        ButtplugMessageUnion::FleshlightLaunchFW12Cmd(*self)
    }

    fn get_id(&self) -> (r: u32) {
        self.id
    }

    fn set_id(&mut self, id: u32) {
        self.id = id;
    }

    fn as_union(self) -> (r: ButtplugMessageUnion) {
        ButtplugMessageUnion::FleshlightLaunchFW12Cmd(self)
    }
}

impl ButtplugMessage for LovenseCmd {
    open spec fn spec_id(&self) -> u32 {
        self.id
    }

    open spec fn spec_with_id(&self, id: u32) -> Self {
        LovenseCmd { id, ..*self }
    }

    open spec fn can_unify(&self) -> bool {
        true
    }

    open spec fn spec_as_union(&self) -> ButtplugMessageUnion {
        ButtplugMessageUnion::LovenseCmd(*self)
    }

    fn get_id(&self) -> (r: u32) {
        self.id
    }

    fn set_id(&mut self, id: u32) {
        self.id = id;
    }

    fn as_union(self) -> (r: ButtplugMessageUnion) {
        ButtplugMessageUnion::LovenseCmd(self)
    }
}

impl ButtplugMessage for KiirooCmd {
    open spec fn spec_id(&self) -> u32 {
        self.id
    }

    open spec fn spec_with_id(&self, id: u32) -> Self {
        KiirooCmd { id, ..*self }
    }

    open spec fn can_unify(&self) -> bool {
        true
    }

    open spec fn spec_as_union(&self) -> ButtplugMessageUnion {
        ButtplugMessageUnion::KiirooCmd(*self)
    }

    fn get_id(&self) -> (r: u32) {
        self.id
    }

    fn set_id(&mut self, id: u32) {
        self.id = id;
    }

    fn as_union(self) -> (r: ButtplugMessageUnion) {
        ButtplugMessageUnion::KiirooCmd(self)
    }
}

impl ButtplugMessage for VorzeA10CycloneCmd {
    open spec fn spec_id(&self) -> u32 {
        self.id
    }

    open spec fn spec_with_id(&self, id: u32) -> Self {
        VorzeA10CycloneCmd { id, ..*self }
    }

    open spec fn can_unify(&self) -> bool {
        true
    }

    open spec fn spec_as_union(&self) -> ButtplugMessageUnion {
        ButtplugMessageUnion::VorzeA10CycloneCmd(*self)
    }

    fn get_id(&self) -> (r: u32) {
        self.id
    }

    fn set_id(&mut self, id: u32) {
        self.id = id;
    }

    fn as_union(self) -> (r: ButtplugMessageUnion) {
        ButtplugMessageUnion::VorzeA10CycloneCmd(self)
    }
}

impl ButtplugMessage for SingleMotorVibrateCmd {
    open spec fn spec_id(&self) -> u32 {
        self.id
    }

    open spec fn spec_with_id(&self, id: u32) -> Self {
        SingleMotorVibrateCmd { id, ..*self }
    }

    open spec fn can_unify(&self) -> bool {
        true
    }

    open spec fn spec_as_union(&self) -> ButtplugMessageUnion {
        ButtplugMessageUnion::SingleMotorVibrateCmd(*self)
    }

    fn get_id(&self) -> (r: u32) {
        self.id
    }

    fn set_id(&mut self, id: u32) {
        self.id = id;
    }

    fn as_union(self) -> (r: ButtplugMessageUnion) {
        ButtplugMessageUnion::SingleMotorVibrateCmd(self)
    }
}

impl ButtplugMessage for RawWriteCmd {
    open spec fn spec_id(&self) -> u32 {
        self.id
    }

    open spec fn spec_with_id(&self, id: u32) -> Self {
        RawWriteCmd { id, ..*self }
    }

    open spec fn can_unify(&self) -> bool {
        true
    }

    open spec fn spec_as_union(&self) -> ButtplugMessageUnion {
        ButtplugMessageUnion::RawWriteCmd(*self)
    }

    fn get_id(&self) -> (r: u32) {
        self.id
    }

    fn set_id(&mut self, id: u32) {
        self.id = id;
    }

    fn as_union(self) -> (r: ButtplugMessageUnion) {
        ButtplugMessageUnion::RawWriteCmd(self)
    }
}

impl ButtplugMessage for RawReadCmd {
    open spec fn spec_id(&self) -> u32 {
        self.id
    }

    open spec fn spec_with_id(&self, id: u32) -> Self {
        RawReadCmd { id, ..*self }
    }

    open spec fn can_unify(&self) -> bool {
        true
    }

    open spec fn spec_as_union(&self) -> ButtplugMessageUnion {
        ButtplugMessageUnion::RawReadCmd(*self)
    }

    fn get_id(&self) -> (r: u32) {
        self.id
    }

    fn set_id(&mut self, id: u32) {
        self.id = id;
    }

    fn as_union(self) -> (r: ButtplugMessageUnion) {
        ButtplugMessageUnion::RawReadCmd(self)
    }
}

impl ButtplugMessage for RawReading {
    open spec fn spec_id(&self) -> u32 {
        self.id
    }

    open spec fn spec_with_id(&self, id: u32) -> Self {
        RawReading { id, ..*self }
    }

    open spec fn can_unify(&self) -> bool {
        true
    }

    open spec fn spec_as_union(&self) -> ButtplugMessageUnion {
        ButtplugMessageUnion::RawReading(*self)
    }

    fn get_id(&self) -> (r: u32) {
        self.id
    }

    fn set_id(&mut self, id: u32) {
        self.id = id;
    }

    fn as_union(self) -> (r: ButtplugMessageUnion) {
        ButtplugMessageUnion::RawReading(self)
    }
}

impl ButtplugMessage for StopDeviceCmd {
    open spec fn spec_id(&self) -> u32 {
        self.id
    }

    open spec fn spec_with_id(&self, id: u32) -> Self {
        StopDeviceCmd { id, ..*self }
    }

    open spec fn can_unify(&self) -> bool {
        true
    }

    open spec fn spec_as_union(&self) -> ButtplugMessageUnion {
        ButtplugMessageUnion::StopDeviceCmd(*self)
    }

    fn get_id(&self) -> (r: u32) {
        self.id
    }

    fn set_id(&mut self, id: u32) {
        self.id = id;
    }

    fn as_union(self) -> (r: ButtplugMessageUnion) {
        ButtplugMessageUnion::StopDeviceCmd(self)
    }
}

impl ButtplugMessage for StopAllDevices {
    open spec fn spec_id(&self) -> u32 {
        self.id
    }

    open spec fn spec_with_id(&self, id: u32) -> Self {
        StopAllDevices { id, ..*self }
    }

    open spec fn can_unify(&self) -> bool {
        true
    }

    open spec fn spec_as_union(&self) -> ButtplugMessageUnion {
        ButtplugMessageUnion::StopAllDevices(*self)
    }

    fn get_id(&self) -> (r: u32) {
        self.id
    }

    fn set_id(&mut self, id: u32) {
        self.id = id;
    }

    fn as_union(self) -> (r: ButtplugMessageUnion) {
        ButtplugMessageUnion::StopAllDevices(self)
    }
}

impl ButtplugMessage for ButtplugMessageUnion {
    open spec fn spec_id(&self) -> u32 {
        match self {
            ButtplugMessageUnion::OkMessage(m) => m.id,
            ButtplugMessageUnion::Error(m) => m.id,
            ButtplugMessageUnion::Ping(m) => m.id,
            ButtplugMessageUnion::Test(m) => m.id,
            ButtplugMessageUnion::RequestLog(m) => m.id,
            ButtplugMessageUnion::Log(m) => m.id,
            ButtplugMessageUnion::RequestServerInfo(m) => m.id,
            ButtplugMessageUnion::ServerInfo(m) => m.id,
            ButtplugMessageUnion::DeviceList(m) => m.id,
            ButtplugMessageUnion::DeviceAdded(m) => m.id,
            ButtplugMessageUnion::DeviceRemoved(m) => m.id,
            ButtplugMessageUnion::StartScanning(m) => m.id,
            ButtplugMessageUnion::StopScanning(m) => m.id,
            ButtplugMessageUnion::ScanningFinished(m) => m.id,
            ButtplugMessageUnion::RequestDeviceList(m) => m.id,
            ButtplugMessageUnion::VibrateCmd(m) => m.id,
            ButtplugMessageUnion::LinearCmd(m) => m.id,
            ButtplugMessageUnion::RotateCmd(m) => m.id,
            ButtplugMessageUnion::FleshlightLaunchFW12Cmd(m) => m.id,
            ButtplugMessageUnion::LovenseCmd(m) => m.id,
            ButtplugMessageUnion::KiirooCmd(m) => m.id,
            ButtplugMessageUnion::VorzeA10CycloneCmd(m) => m.id,
            ButtplugMessageUnion::SingleMotorVibrateCmd(m) => m.id,
            ButtplugMessageUnion::RawWriteCmd(m) => m.id,
            ButtplugMessageUnion::RawReadCmd(m) => m.id,
            ButtplugMessageUnion::RawReading(m) => m.id,
            ButtplugMessageUnion::StopDeviceCmd(m) => m.id,
            ButtplugMessageUnion::StopAllDevices(m) => m.id,
        }
    }

    open spec fn spec_with_id(&self, id: u32) -> Self {
        match *self {
            ButtplugMessageUnion::OkMessage(m) => ButtplugMessageUnion::OkMessage(m.spec_with_id(id)),
            ButtplugMessageUnion::Error(m) => ButtplugMessageUnion::Error(m.spec_with_id(id)),
            ButtplugMessageUnion::Ping(m) => ButtplugMessageUnion::Ping(m.spec_with_id(id)),
            ButtplugMessageUnion::Test(m) => ButtplugMessageUnion::Test(m.spec_with_id(id)),
            ButtplugMessageUnion::RequestLog(m) => ButtplugMessageUnion::RequestLog(m.spec_with_id(id)),
            ButtplugMessageUnion::Log(m) => ButtplugMessageUnion::Log(m.spec_with_id(id)),
            ButtplugMessageUnion::RequestServerInfo(m) => ButtplugMessageUnion::RequestServerInfo(m.spec_with_id(id)),
            ButtplugMessageUnion::ServerInfo(m) => ButtplugMessageUnion::ServerInfo(m.spec_with_id(id)),
            ButtplugMessageUnion::DeviceList(m) => ButtplugMessageUnion::DeviceList(m.spec_with_id(id)),
            ButtplugMessageUnion::DeviceAdded(m) => ButtplugMessageUnion::DeviceAdded(m.spec_with_id(id)),
            ButtplugMessageUnion::DeviceRemoved(m) => ButtplugMessageUnion::DeviceRemoved(m.spec_with_id(id)),
            ButtplugMessageUnion::StartScanning(m) => ButtplugMessageUnion::StartScanning(m.spec_with_id(id)),
            ButtplugMessageUnion::StopScanning(m) => ButtplugMessageUnion::StopScanning(m.spec_with_id(id)),
            ButtplugMessageUnion::ScanningFinished(m) => ButtplugMessageUnion::ScanningFinished(m.spec_with_id(id)),
            ButtplugMessageUnion::RequestDeviceList(m) => ButtplugMessageUnion::RequestDeviceList(m.spec_with_id(id)),
            ButtplugMessageUnion::VibrateCmd(m) => ButtplugMessageUnion::VibrateCmd(m.spec_with_id(id)),
            ButtplugMessageUnion::LinearCmd(m) => ButtplugMessageUnion::LinearCmd(m.spec_with_id(id)),
            ButtplugMessageUnion::RotateCmd(m) => ButtplugMessageUnion::RotateCmd(m.spec_with_id(id)),
            ButtplugMessageUnion::FleshlightLaunchFW12Cmd(m) => ButtplugMessageUnion::FleshlightLaunchFW12Cmd(m.spec_with_id(id)),
            ButtplugMessageUnion::LovenseCmd(m) => ButtplugMessageUnion::LovenseCmd(m.spec_with_id(id)),
            ButtplugMessageUnion::KiirooCmd(m) => ButtplugMessageUnion::KiirooCmd(m.spec_with_id(id)),
            ButtplugMessageUnion::VorzeA10CycloneCmd(m) => ButtplugMessageUnion::VorzeA10CycloneCmd(m.spec_with_id(id)),
            ButtplugMessageUnion::SingleMotorVibrateCmd(m) => ButtplugMessageUnion::SingleMotorVibrateCmd(m.spec_with_id(id)),
            ButtplugMessageUnion::RawWriteCmd(m) => ButtplugMessageUnion::RawWriteCmd(m.spec_with_id(id)),
            ButtplugMessageUnion::RawReadCmd(m) => ButtplugMessageUnion::RawReadCmd(m.spec_with_id(id)),
            ButtplugMessageUnion::RawReading(m) => ButtplugMessageUnion::RawReading(m.spec_with_id(id)),
            ButtplugMessageUnion::StopDeviceCmd(m) => ButtplugMessageUnion::StopDeviceCmd(m.spec_with_id(id)),
            ButtplugMessageUnion::StopAllDevices(m) => ButtplugMessageUnion::StopAllDevices(m.spec_with_id(id)),
        }
    }

    open spec fn can_unify(&self) -> bool {
        false
    }

    open spec fn spec_as_union(&self) -> ButtplugMessageUnion {
        *self
    }

    fn get_id(&self) -> (r: u32) {
        match self {
            ButtplugMessageUnion::OkMessage(m) => m.id,
            ButtplugMessageUnion::Error(m) => m.id,
            ButtplugMessageUnion::Ping(m) => m.id,
            ButtplugMessageUnion::Test(m) => m.id,
            ButtplugMessageUnion::RequestLog(m) => m.id,
            ButtplugMessageUnion::Log(m) => m.id,
            ButtplugMessageUnion::RequestServerInfo(m) => m.id,
            ButtplugMessageUnion::ServerInfo(m) => m.id,
            ButtplugMessageUnion::DeviceList(m) => m.id,
            ButtplugMessageUnion::DeviceAdded(m) => m.id,
            ButtplugMessageUnion::DeviceRemoved(m) => m.id,
            ButtplugMessageUnion::StartScanning(m) => m.id,
            ButtplugMessageUnion::StopScanning(m) => m.id,
            ButtplugMessageUnion::ScanningFinished(m) => m.id,
            ButtplugMessageUnion::RequestDeviceList(m) => m.id,
            ButtplugMessageUnion::VibrateCmd(m) => m.id,
            ButtplugMessageUnion::LinearCmd(m) => m.id,
            ButtplugMessageUnion::RotateCmd(m) => m.id,
            ButtplugMessageUnion::FleshlightLaunchFW12Cmd(m) => m.id,
            ButtplugMessageUnion::LovenseCmd(m) => m.id,
            ButtplugMessageUnion::KiirooCmd(m) => m.id,
            ButtplugMessageUnion::VorzeA10CycloneCmd(m) => m.id,
            ButtplugMessageUnion::SingleMotorVibrateCmd(m) => m.id,
            ButtplugMessageUnion::RawWriteCmd(m) => m.id,
            ButtplugMessageUnion::RawReadCmd(m) => m.id,
            ButtplugMessageUnion::RawReading(m) => m.id,
            ButtplugMessageUnion::StopDeviceCmd(m) => m.id,
            ButtplugMessageUnion::StopAllDevices(m) => m.id,
        }
    }

    fn set_id(&mut self, id: u32) {
        match self {
            ButtplugMessageUnion::OkMessage(m) => m.set_id(id),
            ButtplugMessageUnion::Error(m) => m.set_id(id),
            ButtplugMessageUnion::Ping(m) => m.set_id(id),
            ButtplugMessageUnion::Test(m) => m.set_id(id),
            ButtplugMessageUnion::RequestLog(m) => m.set_id(id),
            ButtplugMessageUnion::Log(m) => m.set_id(id),
            ButtplugMessageUnion::RequestServerInfo(m) => m.set_id(id),
            ButtplugMessageUnion::ServerInfo(m) => m.set_id(id),
            ButtplugMessageUnion::DeviceList(m) => m.set_id(id),
            ButtplugMessageUnion::DeviceAdded(m) => m.set_id(id),
            ButtplugMessageUnion::DeviceRemoved(m) => m.set_id(id),
            ButtplugMessageUnion::StartScanning(m) => m.set_id(id),
            ButtplugMessageUnion::StopScanning(m) => m.set_id(id),
            ButtplugMessageUnion::ScanningFinished(m) => m.set_id(id),
            ButtplugMessageUnion::RequestDeviceList(m) => m.set_id(id),
            ButtplugMessageUnion::VibrateCmd(m) => m.set_id(id),
            ButtplugMessageUnion::LinearCmd(m) => m.set_id(id),
            ButtplugMessageUnion::RotateCmd(m) => m.set_id(id),
            ButtplugMessageUnion::FleshlightLaunchFW12Cmd(m) => m.set_id(id),
            ButtplugMessageUnion::LovenseCmd(m) => m.set_id(id),
            ButtplugMessageUnion::KiirooCmd(m) => m.set_id(id),
            ButtplugMessageUnion::VorzeA10CycloneCmd(m) => m.set_id(id),
            ButtplugMessageUnion::SingleMotorVibrateCmd(m) => m.set_id(id),
            ButtplugMessageUnion::RawWriteCmd(m) => m.set_id(id),
            ButtplugMessageUnion::RawReadCmd(m) => m.set_id(id),
            ButtplugMessageUnion::RawReading(m) => m.set_id(id),
            ButtplugMessageUnion::StopDeviceCmd(m) => m.set_id(id),
            ButtplugMessageUnion::StopAllDevices(m) => m.set_id(id),
        }
    }

    fn as_union(self) -> (r: ButtplugMessageUnion) {
        self
    }
}

impl ButtplugMessage for ButtplugDeviceCommandMessageUnion {
    open spec fn spec_id(&self) -> u32 {
        match self {
            ButtplugDeviceCommandMessageUnion::VibrateCmd(m) => m.id,
            ButtplugDeviceCommandMessageUnion::LinearCmd(m) => m.id,
            ButtplugDeviceCommandMessageUnion::RotateCmd(m) => m.id,
            ButtplugDeviceCommandMessageUnion::FleshlightLaunchFW12Cmd(m) => m.id,
            ButtplugDeviceCommandMessageUnion::LovenseCmd(m) => m.id,
            ButtplugDeviceCommandMessageUnion::KiirooCmd(m) => m.id,
            ButtplugDeviceCommandMessageUnion::VorzeA10CycloneCmd(m) => m.id,
            ButtplugDeviceCommandMessageUnion::SingleMotorVibrateCmd(m) => m.id,
            ButtplugDeviceCommandMessageUnion::RawWriteCmd(m) => m.id,
            ButtplugDeviceCommandMessageUnion::RawReadCmd(m) => m.id,
            ButtplugDeviceCommandMessageUnion::StopDeviceCmd(m) => m.id,
        }
    }

    open spec fn spec_with_id(&self, id: u32) -> Self {
        match *self {
            ButtplugDeviceCommandMessageUnion::VibrateCmd(m) => ButtplugDeviceCommandMessageUnion::VibrateCmd(m.spec_with_id(id)),
            ButtplugDeviceCommandMessageUnion::LinearCmd(m) => ButtplugDeviceCommandMessageUnion::LinearCmd(m.spec_with_id(id)),
            ButtplugDeviceCommandMessageUnion::RotateCmd(m) => ButtplugDeviceCommandMessageUnion::RotateCmd(m.spec_with_id(id)),
            ButtplugDeviceCommandMessageUnion::FleshlightLaunchFW12Cmd(m) => ButtplugDeviceCommandMessageUnion::FleshlightLaunchFW12Cmd(m.spec_with_id(id)),
            ButtplugDeviceCommandMessageUnion::LovenseCmd(m) => ButtplugDeviceCommandMessageUnion::LovenseCmd(m.spec_with_id(id)),
            ButtplugDeviceCommandMessageUnion::KiirooCmd(m) => ButtplugDeviceCommandMessageUnion::KiirooCmd(m.spec_with_id(id)),
            ButtplugDeviceCommandMessageUnion::VorzeA10CycloneCmd(m) => ButtplugDeviceCommandMessageUnion::VorzeA10CycloneCmd(m.spec_with_id(id)),
            ButtplugDeviceCommandMessageUnion::SingleMotorVibrateCmd(m) => ButtplugDeviceCommandMessageUnion::SingleMotorVibrateCmd(m.spec_with_id(id)),
            ButtplugDeviceCommandMessageUnion::RawWriteCmd(m) => ButtplugDeviceCommandMessageUnion::RawWriteCmd(m.spec_with_id(id)),
            ButtplugDeviceCommandMessageUnion::RawReadCmd(m) => ButtplugDeviceCommandMessageUnion::RawReadCmd(m.spec_with_id(id)),
            ButtplugDeviceCommandMessageUnion::StopDeviceCmd(m) => ButtplugDeviceCommandMessageUnion::StopDeviceCmd(m.spec_with_id(id)),
        }
    }

    open spec fn can_unify(&self) -> bool {
        true
    }

    open spec fn spec_as_union(&self) -> ButtplugMessageUnion {
        match *self {
            ButtplugDeviceCommandMessageUnion::VibrateCmd(m) => ButtplugMessageUnion::VibrateCmd(m),
            ButtplugDeviceCommandMessageUnion::LinearCmd(m) => ButtplugMessageUnion::LinearCmd(m),
            ButtplugDeviceCommandMessageUnion::RotateCmd(m) => ButtplugMessageUnion::RotateCmd(m),
            ButtplugDeviceCommandMessageUnion::FleshlightLaunchFW12Cmd(m) => ButtplugMessageUnion::FleshlightLaunchFW12Cmd(m),
            ButtplugDeviceCommandMessageUnion::LovenseCmd(m) => ButtplugMessageUnion::LovenseCmd(m),
            ButtplugDeviceCommandMessageUnion::KiirooCmd(m) => ButtplugMessageUnion::KiirooCmd(m),
            ButtplugDeviceCommandMessageUnion::VorzeA10CycloneCmd(m) => ButtplugMessageUnion::VorzeA10CycloneCmd(m),
            ButtplugDeviceCommandMessageUnion::SingleMotorVibrateCmd(m) => ButtplugMessageUnion::SingleMotorVibrateCmd(m),
            ButtplugDeviceCommandMessageUnion::RawWriteCmd(m) => ButtplugMessageUnion::RawWriteCmd(m),
            ButtplugDeviceCommandMessageUnion::RawReadCmd(m) => ButtplugMessageUnion::RawReadCmd(m),
            ButtplugDeviceCommandMessageUnion::StopDeviceCmd(m) => ButtplugMessageUnion::StopDeviceCmd(m),
        }
    }

    fn get_id(&self) -> (r: u32) {
        match self {
            ButtplugDeviceCommandMessageUnion::VibrateCmd(m) => m.id,
            ButtplugDeviceCommandMessageUnion::LinearCmd(m) => m.id,
            ButtplugDeviceCommandMessageUnion::RotateCmd(m) => m.id,
            ButtplugDeviceCommandMessageUnion::FleshlightLaunchFW12Cmd(m) => m.id,
            ButtplugDeviceCommandMessageUnion::LovenseCmd(m) => m.id,
            ButtplugDeviceCommandMessageUnion::KiirooCmd(m) => m.id,
            ButtplugDeviceCommandMessageUnion::VorzeA10CycloneCmd(m) => m.id,
            ButtplugDeviceCommandMessageUnion::SingleMotorVibrateCmd(m) => m.id,
            ButtplugDeviceCommandMessageUnion::RawWriteCmd(m) => m.id,
            ButtplugDeviceCommandMessageUnion::RawReadCmd(m) => m.id,
            ButtplugDeviceCommandMessageUnion::StopDeviceCmd(m) => m.id,
        }
    }

    fn set_id(&mut self, id: u32) {
        match self {
            ButtplugDeviceCommandMessageUnion::VibrateCmd(m) => m.set_id(id),
            ButtplugDeviceCommandMessageUnion::LinearCmd(m) => m.set_id(id),
            ButtplugDeviceCommandMessageUnion::RotateCmd(m) => m.set_id(id),
            ButtplugDeviceCommandMessageUnion::FleshlightLaunchFW12Cmd(m) => m.set_id(id),
            ButtplugDeviceCommandMessageUnion::LovenseCmd(m) => m.set_id(id),
            ButtplugDeviceCommandMessageUnion::KiirooCmd(m) => m.set_id(id),
            ButtplugDeviceCommandMessageUnion::VorzeA10CycloneCmd(m) => m.set_id(id),
            ButtplugDeviceCommandMessageUnion::SingleMotorVibrateCmd(m) => m.set_id(id),
            ButtplugDeviceCommandMessageUnion::RawWriteCmd(m) => m.set_id(id),
            ButtplugDeviceCommandMessageUnion::RawReadCmd(m) => m.set_id(id),
            ButtplugDeviceCommandMessageUnion::StopDeviceCmd(m) => m.set_id(id),
        }
    }

    fn as_union(self) -> (r: ButtplugMessageUnion) {
        match self {
            ButtplugDeviceCommandMessageUnion::VibrateCmd(m) => ButtplugMessageUnion::VibrateCmd(m),
            ButtplugDeviceCommandMessageUnion::LinearCmd(m) => ButtplugMessageUnion::LinearCmd(m),
            ButtplugDeviceCommandMessageUnion::RotateCmd(m) => ButtplugMessageUnion::RotateCmd(m),
            ButtplugDeviceCommandMessageUnion::FleshlightLaunchFW12Cmd(m) => ButtplugMessageUnion::FleshlightLaunchFW12Cmd(m),
            ButtplugDeviceCommandMessageUnion::LovenseCmd(m) => ButtplugMessageUnion::LovenseCmd(m),
            ButtplugDeviceCommandMessageUnion::KiirooCmd(m) => ButtplugMessageUnion::KiirooCmd(m),
            ButtplugDeviceCommandMessageUnion::VorzeA10CycloneCmd(m) => ButtplugMessageUnion::VorzeA10CycloneCmd(m),
            ButtplugDeviceCommandMessageUnion::SingleMotorVibrateCmd(m) => ButtplugMessageUnion::SingleMotorVibrateCmd(m),
            ButtplugDeviceCommandMessageUnion::RawWriteCmd(m) => ButtplugMessageUnion::RawWriteCmd(m),
            ButtplugDeviceCommandMessageUnion::RawReadCmd(m) => ButtplugMessageUnion::RawReadCmd(m),
            ButtplugDeviceCommandMessageUnion::StopDeviceCmd(m) => ButtplugMessageUnion::StopDeviceCmd(m),
        }
    }
}

/// Every message, whatever its type, takes any id: after setting it, reading it gives it
/// back, and setting the former id again restores the message exactly.
pub proof fn lemma_set_id_round_trip(m: ButtplugMessageUnion, id: u32)
    ensures
        m.spec_with_id(id).spec_id() == id,
        m.spec_with_id(id).spec_with_id(m.spec_id()) == m,
        m.spec_with_id(m.spec_id()) == m,
{
}

/// Turning a device command into a general message keeps its id, and setting an id
/// before or after the conversion gives the same message.
pub proof fn lemma_command_as_union_keeps_id(c: ButtplugDeviceCommandMessageUnion, id: u32)
    ensures
        c.spec_as_union().spec_id() == c.spec_id(),
        c.spec_with_id(id).spec_as_union() == c.spec_as_union().spec_with_id(id),
{
}

} // verus!
