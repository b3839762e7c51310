//! Codec for the outer sampled-value PDU.
//!
//! On the wire: `app_id` and `length` big-endian, two reserved byte pairs
//! (bit 3 of the first reserved byte is the simulation flag), the PDU tag
//! 0x60 with its length, the number-of-units record (tag 0x80) whose own
//! length byte says whether the count occupies one or two bytes, the
//! sequence record (tag 0xa2), and then one record per application data
//! unit, each introduced by tag 0x30 and a one-byte length. The decoder
//! reads the fixed offsets and walks exactly the announced number of unit
//! records; a record whose tag is not 0x30 is a format error, and one whose
//! declared extent runs past the buffer is a truncation error. The encoder
//! is the structural inverse; it serializes the stored `length` header
//! field as it stands rather than recomputing it.

use vstd::prelude::*;

use crate::asdu::{asdu_dec, asdu_enc, lemma_asdu_round_trip};
use crate::be::{
    be_u16, be_u16_bytes, lemma_be_u16_round_trip, u16_from_be, u16_to_be,
};
use crate::model::{wf_asdu, Asdu, AsduView, SampledValue, SvError, SvView};
use crate::tlv::copy_range;

verus! {

/// The concatenated records of a run of application data units: each unit
/// behind tag 0x30 and a one-byte length.
pub open spec fn asdus_enc(s: Seq<AsduView>) -> Seq<u8>
    decreases s.len(),
{
    if s.len() == 0 {
        Seq::empty()
    } else {
        seq![0x30u8, asdu_enc(s[0]).len() as u8] + asdu_enc(s[0]) + asdus_enc(s.drop_first())
    }
}

/// A sampled-value PDU is well formed when its announced count matches the
/// units it carries, everything fits the one-byte length fields of the
/// envelope, and the simulation flag agrees with bit 3 of the first
/// reserved byte.
pub open spec fn wf_sv(s: SvView) -> bool {
    &&& s.reserved1.len() == 2
    &&& s.reserved2.len() == 2
    &&& s.number_of_asdu == s.asdu.len()
    &&& s.asdu.len() <= 255
    &&& (forall|i: int| 0 <= i < s.asdu.len() ==> wf_asdu(#[trigger] s.asdu[i]))
    &&& (forall|i: int| 0 <= i < s.asdu.len() ==> asdu_enc(#[trigger] s.asdu[i]).len() <= 255)
    &&& asdus_enc(s.asdu).len() <= 250
    &&& s.simulation == (s.reserved1[0] / 8 % 2 == 1)
}

/// The encoding of a whole PDU, with a one-byte unit count.
pub open spec fn sv_enc(s: SvView) -> Seq<u8>
    recommends
        wf_sv(s),
{
    be_u16_bytes(s.app_id) + be_u16_bytes(s.length) + s.reserved1 + s.reserved2 + seq![
        0x60u8,
        (5 + asdus_enc(s.asdu).len()) as u8,
        0x80u8,
        1u8,
        s.number_of_asdu as u8,
        0xa2u8,
        asdus_enc(s.asdu).len() as u8,
    ] + asdus_enc(s.asdu)
}

/// The walk over `n` unit records starting at `start`: the parsed units
/// and the cursor after them, or the first error met.
pub open spec fn asdus_dec(b: Seq<u8>, start: int, n: int) -> Result<
    (Seq<AsduView>, int),
    SvError,
>
    decreases n,
{
    if n <= 0 {
        Ok((Seq::empty(), start))
    } else if start + 2 > b.len() {
        Err(SvError::Truncation)
    } else if b[start] != 0x30 {
        Err(SvError::Format)
    } else {
        let l = b[start + 1] as int;
        if start + 2 + l > b.len() {
            Err(SvError::Truncation)
        } else {
            match asdu_dec(b.subrange(start + 2, start + 2 + l)) {
                Err(e) => Err(e),
                Ok(a) => match asdus_dec(b, start + 2 + l, n - 1) {
                    Err(e) => Err(e),
                    Ok(p) => Ok((seq![a] + p.0, p.1)),
                },
            }
        }
    }
}

/// The decode of a byte buffer as one PDU: fixed header offsets, then the
/// record walk.
pub open spec fn sv_dec(b: Seq<u8>) -> Result<SvView, SvError> {
    if b.len() < 12 {
        Err(SvError::Truncation)
    } else {
        let nal = b[11] as int;
        if nal == 1 && b.len() < 13 {
            Err(SvError::Truncation)
        } else if nal != 1 && b.len() < 14 {
            Err(SvError::Truncation)
        } else {
            let number: u16 = if nal == 1 {
                b[12] as u16
            } else {
                be_u16(b.subrange(12, 14))
            };
            match asdus_dec(b, 14 + nal, number as int) {
                Err(e) => Err(e),
                Ok(p) => Ok(
                    SvView {
                        app_id: be_u16(b.subrange(0, 2)),
                        length: be_u16(b.subrange(2, 4)),
                        simulation: b[4] / 8 % 2 == 1,
                        reserved1: b.subrange(4, 6),
                        reserved2: b.subrange(6, 8),
                        number_of_asdu: number,
                        asdu: p.0,
                    },
                ),
            }
        }
    }
}

impl SampledValue {
    /// Decodes one PDU, exactly as [`sv_dec`] states.
    #[verifier::spinoff_prover]
    #[verifier::rlimit(100)]
    pub fn from_bytes(bytes: &[u8]) -> (r: Result<SampledValue, SvError>)
        ensures
            r is Ok <==> sv_dec(bytes@) is Ok,
            r matches Ok(s) ==> sv_dec(bytes@) == Ok::<SvView, SvError>(s@),
            r matches Err(e) ==> sv_dec(bytes@) == Err::<SvView, SvError>(e),
    {
        let v = vstd::slice::slice_to_vec(bytes);
        if v.len() < 12 {
            return Err(SvError::Truncation);
        }
        let nal = v[11] as usize;
        let number: u16 = if nal == 1 {
            if v.len() < 13 {
                return Err(SvError::Truncation);
            }
            v[12] as u16
        } else {
            if v.len() < 14 {
                return Err(SvError::Truncation);
            }
            let n = u16_from_be(v[12], v[13]);
            proof {
                assert(seq![bytes@[12], bytes@[13]] =~= bytes@.subrange(12, 14));
            }
            n
        };
        let ghost start0: int = 14 + nal as int;
        let mut asdus: Vec<Asdu> = Vec::new();
        let mut start: usize = 14 + nal;
        let mut i: u16 = 0;
        proof {
            assert(asdus.deep_view() =~= Seq::<AsduView>::empty());
            match asdus_dec(v@, start0, number as int) {
                Ok(p) => {
                    assert(Seq::<AsduView>::empty() + p.0 =~= p.0);
                },
                Err(e) => {},
            }
        }
        while i < number
            invariant
                v@ == bytes@,
                i <= number,
                v@.len() >= 12,
                nal == v@[11] as usize,
                start0 == 14 + nal as int,
                nal == 1 ==> v@.len() >= 13 && number == v@[12] as u16,
                nal != 1 ==> v@.len() >= 14 && number == be_u16(v@.subrange(12, 14)),
                match asdus_dec(v@, start as int, number as int - i as int) {
                    Ok(p) => asdus_dec(v@, start0, number as int) == Ok::<
                        (Seq<AsduView>, int),
                        SvError,
                    >((asdus.deep_view() + p.0, p.1)),
                    Err(e) => asdus_dec(v@, start0, number as int) == Err::<
                        (Seq<AsduView>, int),
                        SvError,
                    >(e),
                },
            decreases number - i,
        {
            if start > v.len() || v.len() - start < 2 {
                return Err(SvError::Truncation);
            }
            if v[start] != 0x30 {
                return Err(SvError::Format);
            }
            let l = v[start + 1] as usize;
            if l > v.len() - (start + 2) {
                return Err(SvError::Truncation);
            }
            let record = copy_range(&v, start + 2, start + 2 + l);
            let a = match Asdu::from_bytes(record.as_slice()) {
                Ok(a) => a,
                Err(e) => {
                    return Err(e);
                },
            };
            let ghost prev = asdus.deep_view();
            asdus.push(a);
            proof {
                assert(asdus.deep_view() =~= prev + seq![a@]);
                match asdus_dec(v@, start as int + 2 + l as int, number as int - i as int - 1) {
                    Ok(p) => {
                        assert(prev + (seq![a@] + p.0) =~= (prev + seq![a@]) + p.0);
                    },
                    Err(e) => {},
                }
            }
            start = start + 2 + l;
            i = i + 1;
        }
        let sv = SampledValue {
            app_id: u16_from_be(v[0], v[1]),
            length: u16_from_be(v[2], v[3]),
            simulation: v[4] / 8 % 2 == 1,
            reserved1: [v[4], v[5]],
            reserved2: [v[6], v[7]],
            number_of_asdu: number,
            asdu: asdus,
        };
        proof {
            assert(seq![bytes@[0], bytes@[1]] =~= bytes@.subrange(0, 2));
            assert(seq![bytes@[2], bytes@[3]] =~= bytes@.subrange(2, 4));
            assert(sv.reserved1@ =~= bytes@.subrange(4, 6));
            assert(sv.reserved2@ =~= bytes@.subrange(6, 8));
            match asdus_dec(v@, start as int, 0) {
                Ok(p) => {
                    assert(sv.asdu.deep_view() + p.0 =~= sv.asdu.deep_view());
                },
                Err(e) => {},
            }
        }
        Ok(sv)
    }

    /// Encodes the PDU, exactly as [`sv_enc`] states: the stored header
    /// fields as they stand, a one-byte unit count, and one record per
    /// carried unit.
    #[verifier::spinoff_prover]
    #[verifier::rlimit(100)]
    pub fn to_bytes(&self) -> (r: Vec<u8>)
        requires
            wf_sv(self@),
        ensures
            r@ == sv_enc(self@),
    {
        let ghost sview = self@;
        let mut body: Vec<u8> = Vec::new();
        let n = self.asdu.len();
        let mut i: usize = 0;
        proof {
            assert(sview.asdu.take(0) =~= Seq::<AsduView>::empty());
        }
        while i < n
            invariant
                n == self.asdu.len(),
                i <= n,
                sview == self@,
                wf_sv(sview),
                body@ == asdus_enc(sview.asdu.take(i as int)),
            decreases n - i,
        {
            proof {
                assert(sview.asdu[i as int] == self.asdu[i as int]@);
                assert(wf_asdu(sview.asdu[i as int]));
                assert(asdu_enc(sview.asdu[i as int]).len() <= 255);
            }
            let mut ab = self.asdu[i].to_bytes();
            body.push(0x30);
            body.push(ab.len() as u8);
            body.append(&mut ab);
            proof {
                lemma_asdus_enc_push(sview.asdu.take(i as int), sview.asdu[i as int]);
                assert(sview.asdu.take(i as int).push(sview.asdu[i as int]) =~= sview.asdu.take(
                    i as int + 1,
                ));
                assert(body@ =~= asdus_enc(sview.asdu.take(i as int + 1)));
            }
            i = i + 1;
        }
        proof {
            assert(sview.asdu.take(n as int) =~= sview.asdu);
        }
        let mut bytes = u16_to_be(self.app_id);
        let mut lb = u16_to_be(self.length);
        bytes.append(&mut lb);
        bytes.push(self.reserved1[0]);
        bytes.push(self.reserved1[1]);
        bytes.push(self.reserved2[0]);
        bytes.push(self.reserved2[1]);
        let seq_len = body.len();
        bytes.push(0x60);
        bytes.push((5 + seq_len) as u8);
        bytes.push(0x80);
        bytes.push(1);
        bytes.push(self.number_of_asdu as u8);
        bytes.push(0xa2);
        bytes.push(seq_len as u8);
        bytes.append(&mut body);
        proof {
            assert(bytes@ =~= sv_enc(sview));
        }
        bytes
    }
}

/// Concatenation of byte runs is associative.
proof fn lemma_seq_assoc(x: Seq<u8>, y: Seq<u8>, z: Seq<u8>)
    ensures
        x + (y + z) == (x + y) + z,
{
    assert(x + (y + z) =~= (x + y) + z);
}

/// Appending one unit to a run appends exactly its record to the run's
/// encoding.
#[verifier::spinoff_prover]
#[verifier::rlimit(100)]
pub proof fn lemma_asdus_enc_push(s: Seq<AsduView>, a: AsduView)
    ensures
        asdus_enc(s.push(a)) == asdus_enc(s) + (seq![0x30u8, asdu_enc(a).len() as u8] + asdu_enc(
            a,
        )),
    decreases s.len(),
{
    let rec = seq![0x30u8, asdu_enc(a).len() as u8] + asdu_enc(a);
    if s.len() == 0 {
        assert(s.push(a)[0] == a);
        assert(s.push(a).drop_first() =~= Seq::<AsduView>::empty());
        assert(asdus_enc(s.push(a)) == rec + asdus_enc(Seq::<AsduView>::empty()));
        assert(rec + Seq::<u8>::empty() =~= Seq::<u8>::empty() + rec);
    } else {
        let s0rec = seq![0x30u8, asdu_enc(s[0]).len() as u8] + asdu_enc(s[0]);
        assert(s.push(a)[0] == s[0]);
        assert(s.push(a).drop_first() =~= s.drop_first().push(a));
        lemma_asdus_enc_push(s.drop_first(), a);
        assert(asdus_enc(s.push(a)) == s0rec + (asdus_enc(s.drop_first()) + rec));
        lemma_seq_assoc(s0rec, asdus_enc(s.drop_first()), rec);
    }
}

/// Splitting one tagged record out of a framed byte run: the tag and
/// length bytes stand at the cursor, the payload is the following
/// subrange, and the run regroups around the record for the next step.
proof fn lemma_split_record(pre: Seq<u8>, h0: u8, h1: u8, e0: Seq<u8>, rest: Seq<u8>, suf: Seq<u8>)
    ensures
        ({
            let b = pre + (seq![h0, h1] + e0 + rest) + suf;
            &&& b.len() == pre.len() + 2 + e0.len() + rest.len() + suf.len()
            &&& b[pre.len() as int] == h0
            &&& b[pre.len() as int + 1] == h1
            &&& b.subrange(pre.len() as int + 2, pre.len() as int + 2 + e0.len() as int) == e0
            &&& b == (pre + seq![h0, h1] + e0) + rest + suf
        }),
{
    let b = pre + (seq![h0, h1] + e0 + rest) + suf;
    assert(b.subrange(pre.len() as int + 2, pre.len() as int + 2 + e0.len() as int) =~= e0);
    assert(b =~= (pre + seq![h0, h1] + e0) + rest + suf);
}

/// A run of well-formed unit records embedded between arbitrary bytes
/// decodes to exactly those units, leaving the cursor just past them.
#[verifier::spinoff_prover]
#[verifier::rlimit(100)]
proof fn lemma_asdus_dec_at(pre: Seq<u8>, asdus: Seq<AsduView>, suf: Seq<u8>)
    requires
        forall|i: int| 0 <= i < asdus.len() ==> wf_asdu(#[trigger] asdus[i]),
        forall|i: int| 0 <= i < asdus.len() ==> asdu_enc(#[trigger] asdus[i]).len() <= 255,
    ensures
        asdus_dec(pre + asdus_enc(asdus) + suf, pre.len() as int, asdus.len() as int) == Ok::<
            (Seq<AsduView>, int),
            SvError,
        >((asdus, pre.len() as int + asdus_enc(asdus).len() as int)),
    decreases asdus.len(),
{
    let b = pre + asdus_enc(asdus) + suf;
    if asdus.len() == 0 {
        assert(asdus =~= Seq::<AsduView>::empty());
    } else {
        let a0 = asdus[0];
        let rest = asdus.drop_first();
        let e0 = asdu_enc(a0);
        let hdr = seq![0x30u8, e0.len() as u8];
        let off = pre.len() as int;
        assert(asdus_enc(asdus) == hdr + e0 + asdus_enc(rest));
        lemma_split_record(pre, 0x30u8, e0.len() as u8, e0, asdus_enc(rest), suf);
        assert(b[off] == 0x30);
        assert(b[off + 1] == e0.len() as u8);
        assert(b.subrange(off + 2, off + 2 + e0.len() as int) == e0);
        lemma_asdu_round_trip(a0);
        assert forall|i: int| 0 <= i < rest.len() implies wf_asdu(#[trigger] rest[i]) && asdu_enc(
            rest[i],
        ).len() <= 255 by {
            assert(rest[i] == asdus[i + 1]);
        }
        lemma_asdus_dec_at(pre + hdr + e0, rest, suf);
        assert(b == (pre + hdr + e0) + asdus_enc(rest) + suf);
        assert(seq![a0] + rest =~= asdus);
        assert(asdus_dec(b, off, asdus.len() as int) == Ok::<(Seq<AsduView>, int), SvError>(
            (asdus, pre.len() as int + asdus_enc(asdus).len() as int),
        ));
    }
}

/// Round trip: decoding the encoding of any well-formed PDU gives back
/// exactly that PDU.
#[verifier::spinoff_prover]
#[verifier::rlimit(100)]
pub proof fn lemma_sv_round_trip(s: SvView)
    requires
        wf_sv(s),
    ensures
        sv_dec(sv_enc(s)) == Ok::<SvView, SvError>(s),
{
    let b = sv_enc(s);
    let body = asdus_enc(s.asdu);
    let hdr = be_u16_bytes(s.app_id) + be_u16_bytes(s.length) + s.reserved1 + s.reserved2 + seq![
        0x60u8,
        (5 + body.len()) as u8,
        0x80u8,
        1u8,
        s.number_of_asdu as u8,
        0xa2u8,
        body.len() as u8,
    ];
    assert(b == hdr + body);
    assert(hdr.len() == 15);
    assert(b[11] == 1u8);
    assert(b[12] == s.number_of_asdu as u8);
    assert(b[4] == s.reserved1[0]);
    assert(b.subrange(0, 2) =~= be_u16_bytes(s.app_id));
    assert(b.subrange(2, 4) =~= be_u16_bytes(s.length));
    assert(b.subrange(4, 6) =~= s.reserved1);
    assert(b.subrange(6, 8) =~= s.reserved2);
    lemma_be_u16_round_trip(s.app_id);
    lemma_be_u16_round_trip(s.length);
    assert(b =~= hdr + asdus_enc(s.asdu) + Seq::<u8>::empty());
    lemma_asdus_dec_at(hdr, s.asdu, Seq::<u8>::empty());
    assert(sv_dec(b) == Ok::<SvView, SvError>(s));
}

/// Round trip the other way: a buffer that is the encoding of some
/// well-formed PDU decodes successfully, and re-encoding the decoded PDU
/// gives back the buffer, bit for bit.
pub proof fn lemma_sv_encode_decode(s: SvView, b: Seq<u8>)
    requires
        wf_sv(s),
        b == sv_enc(s),
    ensures
        sv_dec(b) == Ok::<SvView, SvError>(s),
        sv_enc(sv_dec(b)->Ok_0) == b,
{
    lemma_sv_round_trip(s);
}

} // verus!
