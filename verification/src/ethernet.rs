//! The fixed 14-byte Ethernet header: destination and source hardware
//! addresses and the EtherType pair.

use vstd::prelude::*;

verus! {

/// A parsed Ethernet header.
#[derive(Clone, Copy, Debug)]
pub struct Ethernet {
    pub dst_mac: [u8; 6],
    pub src_mac: [u8; 6],
    pub ether_type: [u8; 2],
}

/// The 14-byte encoding of a header: destination, source, EtherType.
pub open spec fn eth_enc(e: Ethernet) -> Seq<u8> {
    e.dst_mac@ + e.src_mac@ + e.ether_type@
}

impl Ethernet {
    /// Splits the first 14 bytes of a frame into the three fixed fields.
    pub fn from_bytes(bytes: &[u8]) -> (r: Ethernet)
        requires
            bytes@.len() >= 14,
        ensures
            r.dst_mac@ == bytes@.subrange(0, 6),
            r.src_mac@ == bytes@.subrange(6, 12),
            r.ether_type@ == bytes@.subrange(12, 14),
    {
        let v = vstd::slice::slice_to_vec(bytes);
        let r = Ethernet {
            dst_mac: [v[0], v[1], v[2], v[3], v[4], v[5]],
            src_mac: [v[6], v[7], v[8], v[9], v[10], v[11]],
            ether_type: [v[12], v[13]],
        };
        proof {
            assert(r.dst_mac@ =~= bytes@.subrange(0, 6));
            assert(r.src_mac@ =~= bytes@.subrange(6, 12));
            assert(r.ether_type@ =~= bytes@.subrange(12, 14));
        }
        r
    }

    /// Concatenates the three fields back into the 14-byte header.
    pub fn to_bytes(&self) -> (r: Vec<u8>)
        ensures
            r@ == eth_enc(*self),
            r@.len() == 14,
    {
        let mut r: Vec<u8> = Vec::new();
        r.push(self.dst_mac[0]);
        r.push(self.dst_mac[1]);
        r.push(self.dst_mac[2]);
        r.push(self.dst_mac[3]);
        r.push(self.dst_mac[4]);
        r.push(self.dst_mac[5]);
        r.push(self.src_mac[0]);
        r.push(self.src_mac[1]);
        r.push(self.src_mac[2]);
        r.push(self.src_mac[3]);
        r.push(self.src_mac[4]);
        r.push(self.src_mac[5]);
        r.push(self.ether_type[0]);
        r.push(self.ether_type[1]);
        proof {
            assert(r@ =~= eth_enc(*self));
        }
        r
    }
}

/// Round trip: reading back the 14 bytes a header writes restores each
/// field of the header.
pub proof fn lemma_eth_round_trip(e: Ethernet)
    ensures
        eth_enc(e).subrange(0, 6) == e.dst_mac@,
        eth_enc(e).subrange(6, 12) == e.src_mac@,
        eth_enc(e).subrange(12, 14) == e.ether_type@,
{
    assert(eth_enc(e).subrange(0, 6) =~= e.dst_mac@);
    assert(eth_enc(e).subrange(6, 12) =~= e.src_mac@);
    assert(eth_enc(e).subrange(12, 14) =~= e.ether_type@);
}

} // verus!
