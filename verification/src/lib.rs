//! Core logic for integrating a wireless earbud accessory into a media
//! pipeline: discovery of a connected peer by advertised service identifier,
//! the ordered protocol bootstrap sequence, and the relay that turns in-ear
//! status events into media-controller calls.
//!
//! All transport, protocol-codec and playback work is an external
//! collaborator; this crate holds the decisions: which peer matches, in which
//! order the bootstrap requests go out, what happens when one fails, and
//! which events reach the controller.

use vstd::prelude::*;

pub mod bootstrap;
pub mod discovery;
pub mod relay;

verus! {

/// The value of one hex digit as a lowercase ASCII byte.
pub open spec fn hex_digit(n: u8) -> u8
    recommends
        n < 16,
{
    if n < 10 {
        (0x30 + n) as u8
    } else {
        (0x57 + n) as u8
    }
}

/// One octet as two lowercase ASCII hex digits.
pub open spec fn octet_hex(b: u8) -> Seq<u8> {
    seq![hex_digit(b / 16), hex_digit(b % 16)]
}

/// The display form of an address: its octets as hex pairs joined by
/// colons, as ASCII bytes.
pub open spec fn mac_display(octets: Seq<u8>) -> Seq<u8>
    decreases octets.len(),
{
    if octets.len() == 0 {
        Seq::empty()
    } else if octets.len() == 1 {
        octet_hex(octets[0])
    } else {
        mac_display(octets.drop_last()) + seq![0x3au8] + octet_hex(octets.last())
    }
}

/// The transport address identifying one physical accessory.
/// Immutable once obtained; six octets as on the wire.
#[derive(Clone, Copy, Debug)]
pub struct Address {
    pub octets: [u8; 6],
}

impl Address {
    /// The display identity the media controller is seeded with:
    /// `"xx:xx:xx:xx:xx:xx"` in lowercase hex, as ASCII bytes.
    pub fn display_bytes(&self) -> (r: Vec<u8>)
        ensures
            r@ == mac_display(self.octets@),
    {
        let mut out: Vec<u8> = Vec::new();
        let mut i: usize = 0;
        proof {
            assert(out@ =~= mac_display(self.octets@.take(0)));
        }
        while i < 6
            invariant
                i <= 6,
                out@ == mac_display(self.octets@.take(i as int)),
            decreases 6 - i,
        {
            if i > 0 {
                out.push(0x3a);
            }
            let b = self.octets[i];
            let hi = b / 16;
            let lo = b % 16;
            out.push(if hi < 10 { 0x30 + hi } else { 0x57 + hi });
            out.push(if lo < 10 { 0x30 + lo } else { 0x57 + lo });
            proof {
                let taken = self.octets@.take(i as int + 1);
                assert(taken.drop_last() =~= self.octets@.take(i as int));
                assert(taken.last() == self.octets@[i as int]);
                assert(out@ =~= mac_display(taken));
            }
            i = i + 1;
        }
        proof {
            assert(self.octets@.take(6) =~= self.octets@);
        }
        out
    }
}

/// A 128-bit advertised service identifier.
#[derive(Clone, Copy, Debug, PartialEq, Eq, Structural)]
pub struct ServiceId {
    pub value: u128,
}

/// The accessory's reported in-ear wearing state.
#[derive(Clone, Copy, Debug, PartialEq, Eq, Structural)]
pub enum EarStatus {
    BothIn,
    OneOut,
    BothOut,
}

} // verus!
