//! The protocol of Lovense devices: ASCII commands written to the `tx` channel.
use crate::endpoint::Endpoint;
use crate::errors::{ButtplugDeviceError, ButtplugError, ButtplugMessageError};
use crate::messages::{
    ButtplugDeviceCommandMessageUnion, Magnitude, RawWriteCmd, RotateCmd, StopDeviceCmd, VibrateCmd,
};
use crate::protocol::{ButtplugProtocol, CommandPlan, ProtocolState};
use vstd::arithmetic::div_mod::lemma_basic_div;
use vstd::arithmetic::power2::{
    lemma2_to64, lemma2_to64_rest, lemma_pow2_strictly_increases, lemma_pow2_unfold, pow2,
};
use vstd::prelude::*;
use vstd::string::StringExecFns;

verus! {

/// The highest vibration level that Lovense devices take.
pub const LOVENSE_MAX_LEVEL: u8 = 20;

/// 2^52: the weight of a binary64 value's exponent field, and its implicit leading bit.
pub const MANTISSA_UNIT: u64 = 0x10_0000_0000_0000;

/// 2^63: the weight of a binary64 value's sign bit.
pub const SIGN_UNIT: u64 = 0x8000_0000_0000_0000;

/// The sign bit of a binary64 bit pattern.
pub open spec fn float_sign(bits: u64) -> int {
    bits as int / SIGN_UNIT as int
}

/// The biased exponent field of a binary64 bit pattern.
pub open spec fn float_exponent(bits: u64) -> int {
    (bits as int / MANTISSA_UNIT as int) % 0x800
}

/// The fraction field of a binary64 bit pattern.
pub open spec fn float_fraction(bits: u64) -> int {
    bits as int % MANTISSA_UNIT as int
}

/// The integer level in `0..=max` that a magnitude stands for: the value times `max`,
/// rounded half up, and held to the range. A normal value below 1 is
/// `(2^52 + fraction) / 2^s` with `s = 1075 - exponent`; a negative value, zero, a
/// subnormal and NaN give 0; a value of 1 or more and infinity give `max`.
pub open spec fn magnitude_level(bits: u64, max: u8) -> int {
    let exponent = float_exponent(bits);
    if float_sign(bits) == 1 {
        0
    } else if exponent == 0x7ff {
        if float_fraction(bits) == 0 {
            max as int
        } else {
            0
        }
    } else if exponent == 0 {
        0
    } else if exponent >= 1023 {
        max as int
    } else {
        let s = (1075 - exponent) as nat;
        let scaled = (2 * max * (float_fraction(bits) + MANTISSA_UNIT) + pow2(s)) / (pow2(
            s + 1,
        ) as int);
        if scaled < max {
            scaled
        } else {
            max as int
        }
    }
}

/// Scales a normalized magnitude to an integer level in `0..=max`, rounding half up.
pub fn scale_magnitude(speed: Magnitude, max: u8) -> (r: u8)
    ensures
        r as int == magnitude_level(speed.bits, max),
        r <= max,
{
    let bits = speed.bits;
    let sign = bits / SIGN_UNIT;
    let exponent = (bits / MANTISSA_UNIT) % 0x800;
    let fraction = bits % MANTISSA_UNIT;
    if sign == 1 {
        0
    } else if exponent == 0x7ff {
        if fraction == 0 {
            max
        } else {
            0
        }
    } else if exponent == 0 {
        0
    } else if exponent >= 1023 {
        max
    } else {
        let s = 1075 - exponent;
        let mantissa = fraction + MANTISSA_UNIT;
        proof {
            lemma2_to64();
            lemma2_to64_rest();
            assert(2 * max * mantissa < 0x4000_0000_0000_0000) by (nonlinear_arith)
                requires
                    max <= 255,
                    mantissa < 0x20_0000_0000_0000,
            ;
            lemma_pow2_unfold((s + 1) as nat);
        }
        if s >= 62 {
            proof {
                if s > 62 {
                    lemma_pow2_strictly_increases(62, s as nat);
                }
                lemma_basic_div(
                    2 * max * mantissa + pow2(s as nat),
                    pow2((s + 1) as nat) as int,
                );
            }
            0
        } else {
            let mut p: u64 = 1;
            let mut i: u64 = 0;
            while i < s
                invariant
                    i <= s <= 61,
                    p == pow2(i as nat),
                    p <= 0x2000_0000_0000_0000,
                decreases s - i,
            {
                proof {
                    lemma2_to64_rest();
                    lemma_pow2_unfold((i + 1) as nat);
                    if i + 1 < 61 {
                        lemma_pow2_strictly_increases((i + 1) as nat, 61);
                    }
                }
                p = p * 2;
                i = i + 1;
            }
            let scaled = (2 * (max as u64) * mantissa + p) / (2 * p);
            if scaled < max as u64 {
                scaled as u8
            } else {
                max
            }
        }
    }
}

/// The decimal digits of `n` in ASCII, most significant first, without leading zeros.
pub open spec fn decimal_digits(n: nat) -> Seq<u8>
    decreases n,
{
    if n < 10 {
        seq![(48 + n) as u8]
    } else {
        decimal_digits(n / 10) + seq![(48 + n % 10) as u8]
    }
}

/// The ASCII bytes of the command `Vibrate:<level>;`.
pub open spec fn vibrate_command(level: nat) -> Seq<u8> {
    // "Vibrate:"
    seq![86u8, 105, 98, 114, 97, 116, 101, 58] + decimal_digits(level) + seq![59u8]
}

/// Builds the bytes of the command `Vibrate:<level>;`.
pub fn vibrate_command_bytes(level: u8) -> (r: Vec<u8>)
    ensures
        r@ == vibrate_command(level as nat),
{
    let mut data: Vec<u8> = vec![86u8, 105, 98, 114, 97, 116, 101, 58];
    proof {
        reveal_with_fuel(decimal_digits, 3);
    }
    if level < 10 {
        data.push(48 + level);
    } else if level < 100 {
        data.push(48 + level / 10);
        data.push(48 + level % 10);
    } else {
        data.push(48 + level / 100);
        data.push(48 + (level / 10) % 10);
        data.push(48 + level % 10);
        assert(decimal_digits(level as nat / 10) =~= decimal_digits(level as nat / 100) + seq![
            (48 + (level as nat / 10) % 10) as u8,
        ]);
    }
    data.push(59);
    assert(data@ =~= vibrate_command(level as nat));
    data
}

/// The text of the error for a command that `LovenseProtocol` does not handle.
pub open spec fn rejection_text(message_type: Seq<char>) -> Seq<char> {
    "LovenseProtocol does not accept "@ + message_type + " messages."@
}

/// The text of the error for a command that arrives before setup is done.
pub open spec fn not_ready_text() -> Seq<char> {
    "LovenseProtocol has not finished initializing."@
}

/// The text of the error for a vibrate command without any speed.
pub open spec fn no_speeds_text() -> Seq<char> {
    "VibrateCmd holds no speeds."@
}

/// The Lovense protocol, bound to one device. Stop needs no write; vibrate writes
/// `Vibrate:<level>;` to `tx`, with the first motor's speed scaled to `0..=20`; rotate
/// needs no write.
pub struct LovenseProtocol {
    state: ProtocolState,
}

impl LovenseProtocol {
    /// A protocol instance that has not started its setup.
    pub fn new() -> (r: Self)
        ensures
            r.spec_state() == ProtocolState::Uninitialized,
    {
        LovenseProtocol { state: ProtocolState::Uninitialized }
    }

    /// Plans one device command, as `lovense_outcome` describes.
    pub fn plan_message(&self, message: &ButtplugDeviceCommandMessageUnion) -> (r: Result<
        CommandPlan,
        ButtplugError,
    >)
        ensures
            lovense_outcome(self.spec_state(), *message, r),
    {
        match message {
            ButtplugDeviceCommandMessageUnion::StopDeviceCmd(m) => Ok(self.handle_stop_device_cmd(m)),
            ButtplugDeviceCommandMessageUnion::VibrateCmd(m) => {
                if self.state != ProtocolState::Ready {
                    Err(not_ready_error())
                } else {
                    self.handle_vibrate_cmd(m)
                }
            },
            ButtplugDeviceCommandMessageUnion::RotateCmd(m) => {
                if self.state != ProtocolState::Ready {
                    Err(not_ready_error())
                } else {
                    Ok(self.handle_rotate_cmd(m))
                }
            },
            _ => {
                let mut text = String::from_str("LovenseProtocol does not accept ");
                text.append(message.message_type());
                text.append(" messages.");
                Err(ButtplugError::ButtplugDeviceError(ButtplugDeviceError { message: text }))
            },
        }
    }

    /// Stop is the safety path: it needs no write and always succeeds, so a second stop
    /// does exactly what the first did.
    pub fn handle_stop_device_cmd(&self, msg: &StopDeviceCmd) -> (r: CommandPlan)
        ensures
            r.reply_id == msg.id,
            r.writes@.len() == 0,
    {
        CommandPlan { writes: Vec::new(), reply_id: msg.id }
    }

    /// Vibrate writes `Vibrate:<level>;` to `tx`, the level being the first motor's speed
    /// scaled to `0..=20`; a command without speeds is a message error.
    pub fn handle_vibrate_cmd(&self, msg: &VibrateCmd) -> (r: Result<CommandPlan, ButtplugError>)
        ensures
            vibrate_outcome(*msg, r),
    {
        if msg.speeds.len() == 0 {
            return Err(
                ButtplugError::ButtplugMessageError(
                    ButtplugMessageError::new("VibrateCmd holds no speeds."),
                ),
            );
        }
        let level = scale_magnitude(msg.speeds[0].speed, LOVENSE_MAX_LEVEL);
        let write = RawWriteCmd::new(msg.device_index, Endpoint::Tx, vibrate_command_bytes(level), false);
        let mut writes: Vec<RawWriteCmd> = Vec::new();
        writes.push(write);
        Ok(CommandPlan { writes, reply_id: msg.id })
    }

    /// Rotate replies without a write: the devices' rotation grammar is not part of this
    /// protocol yet.
    pub fn handle_rotate_cmd(&self, msg: &RotateCmd) -> (r: CommandPlan)
        ensures
            r.reply_id == msg.id,
            r.writes@.len() == 0,
    {
        CommandPlan { writes: Vec::new(), reply_id: msg.id }
    }
}

/// The device error for a command that arrives before setup is done.
fn not_ready_error() -> (r: ButtplugError)
    ensures
        r matches ButtplugError::ButtplugDeviceError(e) && e.message@ == not_ready_text(),
{
    ButtplugError::ButtplugDeviceError(
        ButtplugDeviceError::new("LovenseProtocol has not finished initializing."),
    )
}

/// What a vibrate command plans: a message error without speeds, else one write of
/// `Vibrate:<level>;` to `tx` with the first motor's level, and a reply with the
/// command's id.
pub open spec fn vibrate_outcome(msg: VibrateCmd, r: Result<CommandPlan, ButtplugError>) -> bool {
    if msg.speeds@.len() == 0 {
        r matches Err(ButtplugError::ButtplugMessageError(e)) && e.message@ == no_speeds_text()
    } else {
        r matches Ok(p) && p.reply_id == msg.id && p.writes@.len() == 1 && p.writes@[0].id == 1
            && p.writes@[0].device_index == msg.device_index && p.writes@[0].endpoint
            == Endpoint::Tx && p.writes@[0].data@ == vibrate_command(
            magnitude_level(msg.speeds@[0].speed.bits, LOVENSE_MAX_LEVEL) as nat,
        ) && !p.writes@[0].write_with_response
    }
}

/// What `LovenseProtocol` plans for a command in a given setup state. A stop succeeds in
/// every state with no write and the stop's id. A type other than stop, vibrate and rotate
/// is refused in every state with a device error naming the protocol and the type, and no
/// write. Vibrate and rotate are refused with a device error until setup is done; then
/// vibrate is `vibrate_outcome`, and rotate replies with its id and no write.
pub open spec fn lovense_outcome(
    state: ProtocolState,
    message: ButtplugDeviceCommandMessageUnion,
    r: Result<CommandPlan, ButtplugError>,
) -> bool {
    match message {
        ButtplugDeviceCommandMessageUnion::StopDeviceCmd(m) => r matches Ok(p) && p.reply_id
            == m.id && p.writes@.len() == 0,
        ButtplugDeviceCommandMessageUnion::VibrateCmd(m) => if state != ProtocolState::Ready {
            r matches Err(ButtplugError::ButtplugDeviceError(e)) && e.message@ == not_ready_text()
        } else {
            vibrate_outcome(m, r)
        },
        ButtplugDeviceCommandMessageUnion::RotateCmd(m) => if state != ProtocolState::Ready {
            r matches Err(ButtplugError::ButtplugDeviceError(e)) && e.message@ == not_ready_text()
        } else {
            r matches Ok(p) && p.reply_id == m.id && p.writes@.len() == 0
        },
        _ => r matches Err(ButtplugError::ButtplugDeviceError(e)) && e.message@ == rejection_text(
            message.spec_message_type(),
        ),
    }
}

impl ButtplugProtocol for LovenseProtocol {
    closed spec fn spec_state(&self) -> ProtocolState {
        self.state
    }

    fn state(&self) -> (r: ProtocolState) {
        self.state
    }

    fn initialize(&mut self) -> (r: Vec<RawWriteCmd>)
        ensures
            r@.len() == 0,
    {
        if self.state == ProtocolState::Uninitialized {
            self.state = ProtocolState::Initializing;
        }
        Vec::new()
    }

    fn finish_initialize(&mut self, failure: Option<ButtplugDeviceError>) {
        if self.state == ProtocolState::Initializing {
            self.state = match failure {
                None => ProtocolState::Ready,
                Some(_) => ProtocolState::Failed,
            };
        }
    }

    fn parse_message(&self, message: &ButtplugDeviceCommandMessageUnion) -> (r: Result<
        CommandPlan,
        ButtplugError,
    >)
        ensures
            lovense_outcome(self.spec_state(), *message, r),
    {
        self.plan_message(message)
    }
}

} // verus!
