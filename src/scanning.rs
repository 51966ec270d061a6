//! Decisions taken while scanning for Bluetooth LE devices; the radio work is done by the
//! caller.
use vstd::prelude::*;

verus! {

/// Whether a peripheral's advertised name is worth looking up: it is not empty and has
/// not been tried before.
pub open spec fn is_untried(tried: Seq<String>, name: Seq<char>) -> bool {
    name.len() > 0 && forall|i: int| 0 <= i < tried.len() ==> #[trigger] tried[i]@ != name
}

/// Decides whether to look a peripheral's name up, and if so records it as tried.
pub fn try_name(tried: &mut Vec<String>, name: &String) -> (r: bool)
    ensures
        r == is_untried(old(tried)@, name@),
        r ==> final(tried)@ == old(tried)@.push(*name),
        !r ==> final(tried)@ == old(tried)@,
{
    if name.as_str().is_empty() {
        return false;
    }
    let mut i: usize = 0;
    while i < tried.len()
        invariant
            0 <= i <= tried@.len(),
            forall|j: int| 0 <= j < i ==> #[trigger] tried@[j]@ != name@,
        decreases tried@.len() - i,
    {
        if tried[i] == *name {
            return false;
        }
        i = i + 1;
    }
    tried.push(name.clone());
    true
}

/// The 128-bit id of the Lovense transmit characteristic, as written in the vendor's
/// documentation (most significant byte first).
pub open spec fn lovense_tx_uuid() -> Seq<u8> {
    seq![
        0x6eu8, 0x40, 0x00, 0x02, 0xb5, 0xa3, 0xf3, 0x93, 0xe0, 0xa9, 0xe5, 0x0e, 0x24, 0xdc,
        0xca, 0x9e,
    ]
}

/// The Lovense transmit characteristic's id in the byte order that Bluetooth LE uses on
/// the air: least significant byte first.
pub fn lovense_tx_characteristic() -> (r: Vec<u8>)
    ensures
        r@ == lovense_tx_uuid().reverse(),
{
    let id: Vec<u8> = vec![
        0x6eu8, 0x40, 0x00, 0x02, 0xb5, 0xa3, 0xf3, 0x93, 0xe0, 0xa9, 0xe5, 0x0e, 0x24, 0xdc,
        0xca, 0x9e,
    ];
    assert(id@ =~= lovense_tx_uuid());
    let mut r: Vec<u8> = Vec::new();
    let mut i: usize = id.len();
    while i > 0
        invariant
            i <= id@.len(),
            id@ == lovense_tx_uuid(),
            r@ =~= id@.subrange(i as int, id@.len() as int).reverse(),
        decreases i,
    {
        i = i - 1;
        r.push(id[i]);
        assert(r@ =~= id@.subrange(i as int, id@.len() as int).reverse());
    }
    assert(id@.subrange(0, id@.len() as int) =~= id@);
    r
}

} // verus!
