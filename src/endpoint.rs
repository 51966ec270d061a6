//! Logical transport channels of a device.
use vstd::prelude::*;

verus! {

/// A named channel on which raw bytes are written to or read from a device.
#[derive(Debug, Clone, Copy, PartialEq, Eq, Hash, Structural)]
pub enum Endpoint {
    Command,
    Firmware,
    Rx,
    RxAccel,
    RxBLEBattery,
    RxPressure,
    RxTouch,
    Tx,
    TxMode,
    TxShock,
    TxVibrate,
    TxVendorControl,
    Whitelist,
}

impl Endpoint {
    /// The channel's name on the wire: the variant's name in lower case.
    pub open spec fn spec_name(self) -> Seq<char> {
        match self {
            Endpoint::Command => seq!['c', 'o', 'm', 'm', 'a', 'n', 'd'],
            Endpoint::Firmware => seq!['f', 'i', 'r', 'm', 'w', 'a', 'r', 'e'],
            Endpoint::Rx => seq!['r', 'x'],
            Endpoint::RxAccel => seq!['r', 'x', 'a', 'c', 'c', 'e', 'l'],
            Endpoint::RxBLEBattery => seq!['r', 'x', 'b', 'l', 'e', 'b', 'a', 't', 't', 'e', 'r', 'y'],
            Endpoint::RxPressure => seq!['r', 'x', 'p', 'r', 'e', 's', 's', 'u', 'r', 'e'],
            Endpoint::RxTouch => seq!['r', 'x', 't', 'o', 'u', 'c', 'h'],
            Endpoint::Tx => seq!['t', 'x'],
            Endpoint::TxMode => seq!['t', 'x', 'm', 'o', 'd', 'e'],
            Endpoint::TxShock => seq!['t', 'x', 's', 'h', 'o', 'c', 'k'],
            Endpoint::TxVibrate => seq!['t', 'x', 'v', 'i', 'b', 'r', 'a', 't', 'e'],
            Endpoint::TxVendorControl => seq![
                't', 'x', 'v', 'e', 'n', 'd', 'o', 'r', 'c', 'o', 'n', 't', 'r', 'o', 'l',
            ],
            Endpoint::Whitelist => seq!['w', 'h', 'i', 't', 'e', 'l', 'i', 's', 't'],
        }
    }

    /// Returns the channel's name on the wire.
    pub fn name(&self) -> (r: &'static str)
        ensures
            r@ == self.spec_name(),
    {
        match self {
            Endpoint::Command => {
                proof { reveal_strlit("command"); }
                "command"
            },
            Endpoint::Firmware => {
                proof { reveal_strlit("firmware"); }
                "firmware"
            },
            Endpoint::Rx => {
                proof { reveal_strlit("rx"); }
                "rx"
            },
            Endpoint::RxAccel => {
                proof { reveal_strlit("rxaccel"); }
                "rxaccel"
            },
            Endpoint::RxBLEBattery => {
                proof { reveal_strlit("rxblebattery"); }
                "rxblebattery"
            },
            Endpoint::RxPressure => {
                proof { reveal_strlit("rxpressure"); }
                "rxpressure"
            },
            Endpoint::RxTouch => {
                proof { reveal_strlit("rxtouch"); }
                "rxtouch"
            },
            Endpoint::Tx => {
                proof { reveal_strlit("tx"); }
                "tx"
            },
            Endpoint::TxMode => {
                proof { reveal_strlit("txmode"); }
                "txmode"
            },
            Endpoint::TxShock => {
                proof { reveal_strlit("txshock"); }
                "txshock"
            },
            Endpoint::TxVibrate => {
                proof { reveal_strlit("txvibrate"); }
                "txvibrate"
            },
            Endpoint::TxVendorControl => {
                proof { reveal_strlit("txvendorcontrol"); }
                "txvendorcontrol"
            },
            Endpoint::Whitelist => {
                proof { reveal_strlit("whitelist"); }
                "whitelist"
            },
        }
    }
}

/// Distinct channels have distinct names on the wire, so a name identifies its channel.
pub proof fn lemma_endpoint_names_distinct(a: Endpoint, b: Endpoint)
    requires
        a != b,
    ensures
        a.spec_name() != b.spec_name(),
{
    if a.spec_name() == b.spec_name() {
        let (x, y) = (a.spec_name(), b.spec_name());
        assert(x.len() == y.len());
        assert(x[0] == y[0]);
        assert(x.len() > 2 ==> x[2] == y[2]);
        assert(x.len() > 3 ==> x[3] == y[3]);
        assert(x.len() > 5 ==> x[5] == y[5]);
    }
}

} // verus!
