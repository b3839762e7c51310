//! A full wire frame: the Ethernet header followed by one sampled-value
//! PDU. The frame also carries a top-level copy of the header's EtherType
//! for convenient access.

use vstd::prelude::*;

use crate::ethernet::{eth_enc, Ethernet};
use crate::model::{SampledValue, SvError, SvView};
use crate::sampled_value::{sv_dec, sv_enc, wf_sv};
use crate::tlv::copy_range;

verus! {

/// One frame ready for transport.
#[derive(Debug)]
pub struct Packet {
    pub ether_type: [u8; 2],
    pub ethernet: Ethernet,
    pub sampled_value: SampledValue,
}

/// Mathematical view of a frame.
pub ghost struct PacketView {
    pub ether_type: Seq<u8>,
    pub ethernet: Ethernet,
    pub sampled_value: SvView,
}

impl View for Packet {
    type V = PacketView;

    open spec fn view(&self) -> PacketView {
        PacketView {
            ether_type: self.ether_type@,
            ethernet: self.ethernet,
            sampled_value: self.sampled_value@,
        }
    }
}

/// A frame is well formed when its top-level EtherType copy agrees with
/// the header and its PDU is well formed.
pub open spec fn wf_packet(p: PacketView) -> bool {
    &&& p.ether_type == p.ethernet.ether_type@
    &&& wf_sv(p.sampled_value)
}

/// The encoding of a whole frame: the header, then the PDU.
pub open spec fn packet_enc(p: PacketView) -> Seq<u8>
    recommends
        wf_packet(p),
{
    eth_enc(p.ethernet) + sv_enc(p.sampled_value)
}

impl Packet {
    /// Decodes a full frame: the first 14 bytes as the Ethernet header,
    /// the remainder as a sampled-value PDU, with the header's EtherType
    /// copied to the top level. A frame shorter than its header is a
    /// truncation error; a PDU error is passed through.
    pub fn from_bytes(bytes: &[u8]) -> (r: Result<Packet, SvError>)
        ensures
            r is Ok <==> bytes@.len() >= 14 && sv_dec(
                bytes@.subrange(14, bytes@.len() as int),
            ) is Ok,
            r matches Ok(p) ==> {
                &&& p.ethernet.dst_mac@ == bytes@.subrange(0, 6)
                &&& p.ethernet.src_mac@ == bytes@.subrange(6, 12)
                &&& p.ethernet.ether_type@ == bytes@.subrange(12, 14)
                &&& p.ether_type@ == p.ethernet.ether_type@
                &&& sv_dec(bytes@.subrange(14, bytes@.len() as int)) == Ok::<SvView, SvError>(
                    p.sampled_value@,
                )
            },
            r matches Err(e) ==> (bytes@.len() < 14 && e == SvError::Truncation) || (bytes@.len()
                >= 14 && sv_dec(bytes@.subrange(14, bytes@.len() as int)) == Err::<SvView, SvError>(
                e,
            )),
    {
        if bytes.len() < 14 {
            return Err(SvError::Truncation);
        }
        let eth_model = Ethernet::from_bytes(bytes);
        let v = vstd::slice::slice_to_vec(bytes);
        let tail = copy_range(&v, 14, v.len());
        let sv_model = match SampledValue::from_bytes(tail.as_slice()) {
            Ok(s) => s,
            Err(e) => {
                return Err(e);
            },
        };
        let last_eth_type = eth_model.ether_type;
        Ok(Packet { ether_type: last_eth_type, ethernet: eth_model, sampled_value: sv_model })
    }

    /// Encodes the frame: the header's 14 bytes, then the PDU's bytes.
    pub fn to_bytes(&self) -> (r: Vec<u8>)
        requires
            wf_sv(self.sampled_value@),
        ensures
            r@ == packet_enc(self@),
    {
        let mut bytes = self.ethernet.to_bytes();
        let mut sv = self.sampled_value.to_bytes();
        bytes.append(&mut sv);
        bytes
    }
}

/// Round trip: decoding the encoding of any well-formed frame restores the
/// header fields, the EtherType copy and the PDU.
pub proof fn lemma_packet_round_trip(p: PacketView)
    requires
        wf_packet(p),
    ensures
        packet_enc(p).len() >= 14,
        packet_enc(p).subrange(0, 6) == p.ethernet.dst_mac@,
        packet_enc(p).subrange(6, 12) == p.ethernet.src_mac@,
        packet_enc(p).subrange(12, 14) == p.ether_type,
        sv_dec(packet_enc(p).subrange(14, packet_enc(p).len() as int)) == Ok::<SvView, SvError>(
            p.sampled_value,
        ),
{
    let b = packet_enc(p);
    assert(b.subrange(0, 6) =~= p.ethernet.dst_mac@);
    assert(b.subrange(6, 12) =~= p.ethernet.src_mac@);
    assert(b.subrange(12, 14) =~= p.ethernet.ether_type@);
    assert(b.subrange(14, b.len() as int) =~= sv_enc(p.sampled_value));
    crate::sampled_value::lemma_sv_round_trip(p.sampled_value);
}

} // verus!
