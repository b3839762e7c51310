//! Fixed-layout codec for the phase-measurement blocks: 8 bytes for one
//! measurement, 32 for the four measurements of one quantity, 64 for the
//! current and voltage blocks together. A slice of any other length is a
//! format error.

use vstd::prelude::*;
use vstd::slice::slice_to_vec;

use crate::be::{
    be_i32, be_i32_bytes, i32_from_be, i32_to_be, lemma_be_i32_bytes_inverse,
    lemma_be_i32_round_trip,
};
use crate::model::{PhaseMeasurement, PhaseMeasures, Phases, SvError};

verus! {

/// The 8-byte encoding of one measurement: value then quality, big-endian.
pub open spec fn pm_enc(m: PhaseMeasurement) -> Seq<u8> {
    be_i32_bytes(m.value) + be_i32_bytes(m.quality)
}

/// The measurement stored in an 8-byte block.
pub open spec fn pm_dec(b: Seq<u8>) -> PhaseMeasurement
    recommends
        b.len() == 8,
{
    PhaseMeasurement { value: be_i32(b.subrange(0, 4)), quality: be_i32(b.subrange(4, 8)) }
}

/// The 32-byte encoding of the four measurements, in the order a, b, c, n.
pub open spec fn pms_enc(m: PhaseMeasures) -> Seq<u8> {
    pm_enc(m.a) + pm_enc(m.b) + pm_enc(m.c) + pm_enc(m.n)
}

/// The four measurements stored in a 32-byte block.
pub open spec fn pms_dec(b: Seq<u8>) -> PhaseMeasures
    recommends
        b.len() == 32,
{
    PhaseMeasures {
        a: pm_dec(b.subrange(0, 8)),
        b: pm_dec(b.subrange(8, 16)),
        c: pm_dec(b.subrange(16, 24)),
        n: pm_dec(b.subrange(24, 32)),
    }
}

/// The 64-byte encoding of a dataset's blocks: current then voltage.
pub open spec fn phases_enc(p: Phases) -> Seq<u8> {
    pms_enc(p.current) + pms_enc(p.voltage)
}

/// The current and voltage blocks stored in a 64-byte block.
pub open spec fn phases_dec(b: Seq<u8>) -> Phases
    recommends
        b.len() == 64,
{
    Phases { current: pms_dec(b.subrange(0, 32)), voltage: pms_dec(b.subrange(32, 64)) }
}

impl PhaseMeasurement {
    /// Decodes one measurement; fails with a format error on any slice
    /// whose length is not exactly 8.
    pub fn from_bytes(bytes: &[u8]) -> (r: Result<PhaseMeasurement, SvError>)
        ensures
            r is Ok <==> bytes@.len() == 8,
            r matches Ok(m) ==> m == pm_dec(bytes@),
            r matches Err(e) ==> e == SvError::Format,
    {
        if bytes.len() != 8 {
            return Err(SvError::Format);
        }
        let v = slice_to_vec(bytes);
        let value = i32_from_be(v[0], v[1], v[2], v[3]);
        let quality = i32_from_be(v[4], v[5], v[6], v[7]);
        proof {
            assert(seq![bytes@[0], bytes@[1], bytes@[2], bytes@[3]] =~= bytes@.subrange(0, 4));
            assert(seq![bytes@[4], bytes@[5], bytes@[6], bytes@[7]] =~= bytes@.subrange(4, 8));
        }
        Ok(PhaseMeasurement { value, quality })
    }

    /// Encodes one measurement as its exact 8-byte block.
    pub fn to_bytes(&self) -> (r: Vec<u8>)
        ensures
            r@ == pm_enc(*self),
            r@.len() == 8,
    {
        let mut r = i32_to_be(self.value);
        let mut q = i32_to_be(self.quality);
        r.append(&mut q);
        r
    }
}

impl PhaseMeasures {
    /// Decodes the four measurements; fails with a format error on any
    /// slice whose length is not exactly 32.
    pub fn from_bytes(bytes: &[u8]) -> (r: Result<PhaseMeasures, SvError>)
        ensures
            r is Ok <==> bytes@.len() == 32,
            r matches Ok(m) ==> m == pms_dec(bytes@),
            r matches Err(e) ==> e == SvError::Format,
    {
        if bytes.len() != 32 {
            return Err(SvError::Format);
        }
        let v = slice_to_vec(bytes);
        let pa = crate::tlv::copy_range(&v, 0, 8);
        let pb = crate::tlv::copy_range(&v, 8, 16);
        let pc = crate::tlv::copy_range(&v, 16, 24);
        let pn = crate::tlv::copy_range(&v, 24, 32);
        let a = PhaseMeasurement::from_bytes(pa.as_slice());
        let b = PhaseMeasurement::from_bytes(pb.as_slice());
        let c = PhaseMeasurement::from_bytes(pc.as_slice());
        let n = PhaseMeasurement::from_bytes(pn.as_slice());
        match (a, b, c, n) {
            (Ok(a), Ok(b), Ok(c), Ok(n)) => Ok(PhaseMeasures { a, b, c, n }),
            _ => Err(SvError::Format),
        }
    }

    /// Encodes the four measurements as their exact 32-byte block.
    pub fn to_bytes(&self) -> (r: Vec<u8>)
        ensures
            r@ == pms_enc(*self),
            r@.len() == 32,
    {
        let mut r = self.a.to_bytes();
        let mut b = self.b.to_bytes();
        let mut c = self.c.to_bytes();
        let mut n = self.n.to_bytes();
        r.append(&mut b);
        r.append(&mut c);
        r.append(&mut n);
        r
    }
}

impl Phases {
    /// Decodes the current and voltage blocks; fails with a format error on
    /// any slice whose length is not exactly 64.
    pub fn from_bytes(bytes: &[u8]) -> (r: Result<Phases, SvError>)
        ensures
            r is Ok <==> bytes@.len() == 64,
            r matches Ok(p) ==> p == phases_dec(bytes@),
            r matches Err(e) ==> e == SvError::Format,
    {
        if bytes.len() != 64 {
            return Err(SvError::Format);
        }
        let v = slice_to_vec(bytes);
        let cur = crate::tlv::copy_range(&v, 0, 32);
        let vol = crate::tlv::copy_range(&v, 32, 64);
        let current = PhaseMeasures::from_bytes(cur.as_slice());
        let voltage = PhaseMeasures::from_bytes(vol.as_slice());
        match (current, voltage) {
            (Ok(current), Ok(voltage)) => Ok(Phases { current, voltage }),
            _ => Err(SvError::Format),
        }
    }

    /// Encodes the two blocks as their exact 64-byte block.
    pub fn to_bytes(&self) -> (r: Vec<u8>)
        ensures
            r@ == phases_enc(*self),
            r@.len() == 64,
    {
        let mut r = self.current.to_bytes();
        let mut v = self.voltage.to_bytes();
        r.append(&mut v);
        r
    }
}

/// Round trip: decoding the encoding of any measurement gives it back.
pub proof fn lemma_pm_round_trip(m: PhaseMeasurement)
    ensures
        pm_dec(pm_enc(m)) == m,
{
    assert(pm_enc(m).subrange(0, 4) =~= be_i32_bytes(m.value));
    assert(pm_enc(m).subrange(4, 8) =~= be_i32_bytes(m.quality));
    lemma_be_i32_round_trip(m.value);
    lemma_be_i32_round_trip(m.quality);
}

/// Round trip: re-encoding the measurement decoded from any 8-byte block
/// gives back the block, bit for bit.
pub proof fn lemma_pm_bytes_inverse(b: Seq<u8>)
    requires
        b.len() == 8,
    ensures
        pm_enc(pm_dec(b)) =~= b,
{
    lemma_be_i32_bytes_inverse(b.subrange(0, 4));
    lemma_be_i32_bytes_inverse(b.subrange(4, 8));
}

/// Round trip: decoding the encoding of any four-measurement block gives it
/// back.
pub proof fn lemma_pms_round_trip(m: PhaseMeasures)
    ensures
        pms_dec(pms_enc(m)) == m,
{
    let e = pms_enc(m);
    assert(e.subrange(0, 8) =~= pm_enc(m.a));
    assert(e.subrange(8, 16) =~= pm_enc(m.b));
    assert(e.subrange(16, 24) =~= pm_enc(m.c));
    assert(e.subrange(24, 32) =~= pm_enc(m.n));
    lemma_pm_round_trip(m.a);
    lemma_pm_round_trip(m.b);
    lemma_pm_round_trip(m.c);
    lemma_pm_round_trip(m.n);
}

/// Round trip: re-encoding the measurements decoded from any 32-byte block
/// gives back the block, bit for bit.
#[verifier::spinoff_prover]
pub proof fn lemma_pms_bytes_inverse(b: Seq<u8>)
    requires
        b.len() == 32,
    ensures
        pms_enc(pms_dec(b)) =~= b,
{
    lemma_pm_bytes_inverse(b.subrange(0, 8));
    lemma_pm_bytes_inverse(b.subrange(8, 16));
    lemma_pm_bytes_inverse(b.subrange(16, 24));
    lemma_pm_bytes_inverse(b.subrange(24, 32));
}

/// Round trip: decoding the encoding of any dataset block gives it back.
pub proof fn lemma_phases_round_trip(p: Phases)
    ensures
        phases_dec(phases_enc(p)) == p,
{
    let e = phases_enc(p);
    assert(e.subrange(0, 32) =~= pms_enc(p.current));
    assert(e.subrange(32, 64) =~= pms_enc(p.voltage));
    lemma_pms_round_trip(p.current);
    lemma_pms_round_trip(p.voltage);
}

/// Round trip: re-encoding the dataset decoded from any 64-byte block gives
/// back the block, bit for bit.
#[verifier::spinoff_prover]
#[verifier::rlimit(60)]
pub proof fn lemma_phases_bytes_inverse(b: Seq<u8>)
    requires
        b.len() == 64,
    ensures
        phases_enc(phases_dec(b)) =~= b,
{
    lemma_pms_bytes_inverse(b.subrange(0, 32));
    lemma_pms_bytes_inverse(b.subrange(32, 64));
}

} // verus!
