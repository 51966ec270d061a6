//! The contract that every vendor protocol meets, and the step that turns the outcome of
//! a command's transport writes into the reply.
use crate::errors::{ButtplugDeviceError, ButtplugError};
use crate::messages::{
    ButtplugDeviceCommandMessageUnion, ButtplugMessage, ButtplugMessageUnion, OkMessage,
    RawWriteCmd,
};
use vstd::prelude::*;

verus! {

/// Where a protocol instance stands in its one-time setup.
#[derive(Debug, Clone, Copy, PartialEq, Eq, Structural)]
pub enum ProtocolState {
    Uninitialized,
    Initializing,
    Ready,
    Failed,
}

/// What a protocol asks of the device handle for one command: the writes to perform, in
/// order, and the id that the reply must carry.
#[derive(Debug, Clone, PartialEq)]
pub struct CommandPlan {
    pub writes: Vec<RawWriteCmd>,
    pub reply_id: u32,
}

/// A vendor protocol, bound to one device. The caller performs the transport work that the
/// protocol plans, and hands back its outcome.
pub trait ButtplugProtocol {
    /// Where the instance stands in its setup.
    spec fn spec_state(&self) -> ProtocolState;

    /// Returns where the instance stands in its setup.
    fn state(&self) -> (r: ProtocolState)
        ensures
            r == self.spec_state(),
    ;

    /// Starts the one-time setup and returns the writes it needs. Only an uninitialized
    /// instance moves (to `Initializing`); any other is left as it was and needs nothing.
    fn initialize(&mut self) -> (r: Vec<RawWriteCmd>)
        ensures
            old(self).spec_state() == ProtocolState::Uninitialized ==> final(self).spec_state()
                == ProtocolState::Initializing,
            old(self).spec_state() != ProtocolState::Uninitialized ==> final(self).spec_state()
                == old(self).spec_state() && r@.len() == 0,
    ;

    /// Ends the setup with the outcome of its writes: `Ready` when none failed, else
    /// `Failed`. An instance that was not initializing is left as it was.
    fn finish_initialize(&mut self, failure: Option<ButtplugDeviceError>)
        ensures
            old(self).spec_state() == ProtocolState::Initializing ==> final(self).spec_state() == (
            if failure is None {
                ProtocolState::Ready
            } else {
                ProtocolState::Failed
            }),
            old(self).spec_state() != ProtocolState::Initializing ==> final(self).spec_state()
                == old(self).spec_state(),
    ;

    /// Plans one device command. A stop is always accepted, in every state, and needs no
    /// write; any other command is refused with a device error until setup is done. An
    /// accepted command's reply carries the command's own id.
    fn parse_message(&self, message: &ButtplugDeviceCommandMessageUnion) -> (r: Result<
        CommandPlan,
        ButtplugError,
    >)
        ensures
            r matches Ok(p) ==> p.reply_id == message.spec_id(),
            message is StopDeviceCmd ==> (r matches Ok(p) && p.writes@.len() == 0),
            !(message is StopDeviceCmd) && self.spec_state() != ProtocolState::Ready ==> (
            r matches Err(ButtplugError::ButtplugDeviceError(_))),
    ;
}

/// The reply that a planned command earns: `Ok` with the plan's id when every write
/// succeeded, else the device error of the write that failed.
pub fn complete_command(plan: &CommandPlan, failure: Option<ButtplugDeviceError>) -> (r: Result<
    ButtplugMessageUnion,
    ButtplugError,
>)
    ensures
        failure is None ==> r == Ok::<ButtplugMessageUnion, ButtplugError>(
            ButtplugMessageUnion::OkMessage(OkMessage { id: plan.reply_id }),
        ),
        failure matches Some(e) ==> r == Err::<ButtplugMessageUnion, ButtplugError>(
            ButtplugError::ButtplugDeviceError(e),
        ),
{
    match failure {
        None => Ok(ButtplugMessageUnion::OkMessage(OkMessage::new(plan.reply_id))),
        Some(e) => Err(ButtplugError::ButtplugDeviceError(e)),
    }
}

} // verus!
