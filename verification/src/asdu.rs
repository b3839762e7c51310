//! Codec for one application data unit.
//!
//! An encoded unit is a run of tag-length-value records in a fixed order:
//! `sv_id` (0x80), optional `dataset` (0x81), `smp_count` (0x82),
//! `conf_rev` (0x83), optional `refr_tm` (0x84), `smp_sync` (0x85),
//! optional `smp_rate` (0x86), `measures` (0x87), optional `smp_mode`
//! (0x88). An optional field is present exactly when the next record
//! carries its tag. Numeric fields are read at their declared fixed width;
//! a value of any other width, an invalid UTF-8 string, or a
//! synchronization byte outside the three defined codes is a format error.

use vstd::prelude::*;
use vstd::utf8::{decode_utf8, encode_utf8, valid_utf8};

use crate::be::{
    be_u16, be_u16_bytes, be_u32, be_u32_bytes, be_u64, be_u64_bytes, lemma_be_u16_round_trip,
    lemma_be_u32_round_trip, lemma_be_u64_round_trip, u16_from_be, u32_from_be, u64_from_be,
};
use crate::model::{
    sync_code, wf_asdu, ASDUTags, Asdu, AsduView, PhaseMeasurement, PhaseMeasures, Phases,
    SampleSync, SvError,
};
use crate::phases::{phases_dec, phases_enc};
use crate::tlv::{lemma_tlv_read_at, read_tlv, tlv_read, TlvView};

verus! {

/// One string-valued record: the tag, the UTF-8 byte count, the bytes.
pub open spec fn str_field_enc(tag: u8, s: Seq<char>) -> Seq<u8>
    recommends
        encode_utf8(s).len() <= 255,
{
    seq![tag, encode_utf8(s).len() as u8] + encode_utf8(s)
}

/// The record of the stream identifier.
pub open spec fn fld_sv_id(a: AsduView) -> Seq<u8> {
    str_field_enc(0x80, a.sv_id)
}

/// The record of the dataset name; nothing when the field is absent.
pub open spec fn fld_dataset(a: AsduView) -> Seq<u8> {
    match a.dataset {
        Some(d) => str_field_enc(0x81, d),
        None => Seq::empty(),
    }
}

/// The record of the sample counter.
pub open spec fn fld_smp_count(a: AsduView) -> Seq<u8> {
    seq![0x82u8, 2u8] + be_u16_bytes(a.smp_count)
}

/// The record of the configuration revision.
pub open spec fn fld_conf_rev(a: AsduView) -> Seq<u8> {
    seq![0x83u8, 4u8] + be_u32_bytes(a.conf_rev)
}

/// The record of the reference timestamp; nothing when the field is absent.
pub open spec fn fld_refr_tm(a: AsduView) -> Seq<u8> {
    match a.refr_tm {
        Some(t) => seq![0x84u8, 8u8] + be_u64_bytes(t),
        None => Seq::empty(),
    }
}

/// The record of the synchronization source.
pub open spec fn fld_smp_sync(a: AsduView) -> Seq<u8> {
    seq![0x85u8, 1u8, sync_code(a.smp_sync)]
}

/// The record of the sample rate; nothing when the field is absent.
pub open spec fn fld_smp_rate(a: AsduView) -> Seq<u8> {
    match a.smp_rate {
        Some(x) => seq![0x86u8, 2u8] + be_u16_bytes(x),
        None => Seq::empty(),
    }
}

/// The record of the measurement block.
pub open spec fn fld_measures(a: AsduView) -> Seq<u8> {
    seq![0x87u8, 64u8] + phases_enc(a.measures)
}

/// The record of the sample mode; nothing when the field is absent.
pub open spec fn fld_smp_mode(a: AsduView) -> Seq<u8> {
    match a.smp_mode {
        Some(x) => seq![0x88u8, 2u8] + be_u16_bytes(x),
        None => Seq::empty(),
    }
}

/// The encoding of a whole application data unit: its records in wire
/// order, absent optional fields contributing nothing.
#[verifier::opaque]
pub open spec fn asdu_enc(a: AsduView) -> Seq<u8>
    recommends
        wf_asdu(a),
{
    fld_sv_id(a) + fld_dataset(a) + fld_smp_count(a) + fld_conf_rev(a) + fld_refr_tm(a)
        + fld_smp_sync(a) + fld_smp_rate(a) + fld_measures(a) + fld_smp_mode(a)
}

/// The synchronization source denoted by a wire byte in range.
pub open spec fn sync_of_byte(b: u8) -> SampleSync
    recommends
        b <= 2,
{
    if b == 0 {
        SampleSync::Internal
    } else if b == 1 {
        SampleSync::Local
    } else {
        SampleSync::Global
    }
}

/// The decode of a byte buffer as one application data unit: the record
/// walk described at the top of this module, with every failure named.
#[verifier::opaque]
pub open spec fn asdu_dec(b: Seq<u8>) -> Result<AsduView, SvError> {
    let t1 = tlv_read(b, 0);
    if !valid_utf8(t1.value) {
        Err(SvError::Format)
    } else {
        let sv_id = decode_utf8(t1.value);
        let t2 = tlv_read(b, t1.next);
        if t2.tag == 0x81 && !valid_utf8(t2.value) {
            Err(SvError::Format)
        } else {
            let dataset = if t2.tag == 0x81 {
                Some(decode_utf8(t2.value))
            } else {
                None
            };
            let t3 = if t2.tag == 0x81 {
                tlv_read(b, t2.next)
            } else {
                t2
            };
            if t3.value.len() != 2 {
                Err(SvError::Format)
            } else {
                let smp_count = be_u16(t3.value);
                let t4 = tlv_read(b, t3.next);
                if t4.value.len() != 4 {
                    Err(SvError::Format)
                } else {
                    let conf_rev = be_u32(t4.value);
                    let t5 = tlv_read(b, t4.next);
                    if t5.tag == 0x84 && t5.value.len() != 8 {
                        Err(SvError::Format)
                    } else {
                        let refr_tm = if t5.tag == 0x84 {
                            Some(be_u64(t5.value))
                        } else {
                            None
                        };
                        let t6 = if t5.tag == 0x84 {
                            tlv_read(b, t5.next)
                        } else {
                            t5
                        };
                        if t6.value.len() != 1 || t6.value[0] > 2 {
                            Err(SvError::Format)
                        } else {
                            let smp_sync = sync_of_byte(t6.value[0]);
                            let t7 = tlv_read(b, t6.next);
                            if t7.tag == 0x86 && t7.value.len() != 2 {
                                Err(SvError::Format)
                            } else {
                                let smp_rate = if t7.tag == 0x86 {
                                    Some(be_u16(t7.value))
                                } else {
                                    None
                                };
                                let t8 = if t7.tag == 0x86 {
                                    tlv_read(b, t7.next)
                                } else {
                                    t7
                                };
                                if t8.value.len() != 64 {
                                    Err(SvError::Format)
                                } else {
                                    let measures = phases_dec(t8.value);
                                    let t9 = tlv_read(b, t8.next);
                                    if t9.tag == 0x88 && t9.value.len() != 2 {
                                        Err(SvError::Format)
                                    } else {
                                        let smp_mode = if t9.tag == 0x88 {
                                            Some(be_u16(t9.value))
                                        } else {
                                            None
                                        };
                                        Ok(
                                            AsduView {
                                                sv_id,
                                                dataset,
                                                smp_count,
                                                conf_rev,
                                                refr_tm,
                                                smp_sync,
                                                smp_rate,
                                                measures,
                                                smp_mode,
                                            },
                                        )
                                    }
                                }
                            }
                        }
                    }
                }
            }
        }
    }
}

/// Relies on String::from_utf8: it succeeds exactly when the input is
/// valid UTF-8, and then returns the string those bytes encode (its
/// inverse is String::into_bytes).
#[verifier::external_body]
fn string_from_utf8(v: Vec<u8>) -> (r: Option<String>)
    ensures
        r is Some <==> valid_utf8(v@),
        r matches Some(s) ==> s@ == decode_utf8(v@),
{
    String::from_utf8(v).ok()
}

impl Asdu {
    /// Decodes one application data unit, exactly as [`asdu_dec`] states.
    #[verifier::spinoff_prover]
    #[verifier::rlimit(100)]
    pub fn from_bytes(bytes: &[u8]) -> (r: Result<Asdu, SvError>)
        ensures
            r is Ok <==> asdu_dec(bytes@) is Ok,
            r matches Ok(a) ==> asdu_dec(bytes@) == Ok::<AsduView, SvError>(a@),
            r matches Err(e) ==> asdu_dec(bytes@) == Err::<AsduView, SvError>(e),
    {
        proof {
            reveal(asdu_dec);
        }
        let v = vstd::slice::slice_to_vec(bytes);
        let t1 = read_tlv(&v, 0);
        let sv_id = match string_from_utf8(t1.value) {
            Some(s) => s,
            None => {
                return Err(SvError::Format);
            },
        };
        let t2 = read_tlv(&v, t1.next);
        let (dataset, t3) = if t2.tag == 0x81 {
            let next = t2.next;
            let d = match string_from_utf8(t2.value) {
                Some(s) => s,
                None => {
                    return Err(SvError::Format);
                },
            };
            (Some(d), read_tlv(&v, next))
        } else {
            (None, t2)
        };
        if t3.value.len() != 2 {
            return Err(SvError::Format);
        }
        let smp_count = u16_from_be(t3.value[0], t3.value[1]);
        proof {
            assert(seq![t3.value@[0], t3.value@[1]] =~= t3.value@);
        }
        let t4 = read_tlv(&v, t3.next);
        if t4.value.len() != 4 {
            return Err(SvError::Format);
        }
        let conf_rev = u32_from_be(t4.value[0], t4.value[1], t4.value[2], t4.value[3]);
        proof {
            assert(seq![t4.value@[0], t4.value@[1], t4.value@[2], t4.value@[3]] =~= t4.value@);
        }
        let t5 = read_tlv(&v, t4.next);
        let (refr_tm, t6) = if t5.tag == 0x84 {
            if t5.value.len() != 8 {
                return Err(SvError::Format);
            }
            let t = u64_from_be(&t5.value);
            (Some(t), read_tlv(&v, t5.next))
        } else {
            (None, t5)
        };
        if t6.value.len() != 1 {
            return Err(SvError::Format);
        }
        let smp_sync = match SampleSync::from_byte(t6.value[0]) {
            Ok(s) => s,
            Err(e) => {
                return Err(e);
            },
        };
        let t7 = read_tlv(&v, t6.next);
        let (smp_rate, t8) = if t7.tag == 0x86 {
            if t7.value.len() != 2 {
                return Err(SvError::Format);
            }
            let x = u16_from_be(t7.value[0], t7.value[1]);
            proof {
                assert(seq![t7.value@[0], t7.value@[1]] =~= t7.value@);
            }
            (Some(x), read_tlv(&v, t7.next))
        } else {
            (None, t7)
        };
        if t8.value.len() != 64 {
            return Err(SvError::Format);
        }
        let measures = match Phases::from_bytes(t8.value.as_slice()) {
            Ok(p) => p,
            Err(e) => {
                return Err(e);
            },
        };
        let t9 = read_tlv(&v, t8.next);
        let smp_mode = if t9.tag == 0x88 {
            if t9.value.len() != 2 {
                return Err(SvError::Format);
            }
            let x = u16_from_be(t9.value[0], t9.value[1]);
            proof {
                assert(seq![t9.value@[0], t9.value@[1]] =~= t9.value@);
            }
            Some(x)
        } else {
            None
        };
        Ok(
            Asdu {
                sv_id,
                dataset,
                smp_count,
                conf_rev,
                refr_tm,
                smp_sync,
                smp_rate,
                measures,
                smp_mode,
            },
        )
    }

    /// Encodes the stream identifier as its record: tag, byte count, bytes.
    pub fn sv_id_to_bytes(sv_id: &str) -> (r: Vec<u8>)
        requires
            encode_utf8(sv_id@).len() <= 255,
        ensures
            r@ == str_field_enc(0x80, sv_id@),
    {
        let mut bytes: Vec<u8> = Vec::new();
        bytes.push(ASDUTags::SvId.byte());
        let mut sb = vstd::slice::slice_to_vec(sv_id.as_bytes());
        bytes.push(sb.len() as u8);
        bytes.append(&mut sb);
        proof {
            assert(bytes@ =~= str_field_enc(0x80, sv_id@));
        }
        bytes
    }

    /// Encodes the dataset name as its record: tag, byte count, bytes.
    pub fn dataset_to_bytes(dataset: &str) -> (r: Vec<u8>)
        requires
            encode_utf8(dataset@).len() <= 255,
        ensures
            r@ == str_field_enc(0x81, dataset@),
    {
        let mut bytes: Vec<u8> = Vec::new();
        bytes.push(ASDUTags::Dataset.byte());
        let mut db = vstd::slice::slice_to_vec(dataset.as_bytes());
        bytes.push(db.len() as u8);
        bytes.append(&mut db);
        proof {
            assert(bytes@ =~= str_field_enc(0x81, dataset@));
        }
        bytes
    }

    /// Encodes the sample counter as its fixed two-byte record.
    pub fn smp_count_to_bytes(smp_count: u16) -> (r: Vec<u8>)
        ensures
            r@ == seq![0x82u8, 2u8] + be_u16_bytes(smp_count),
    {
        let mut bytes: Vec<u8> = Vec::new();
        bytes.push(ASDUTags::SmpCount.byte());
        bytes.push(2);
        let mut v = crate::be::u16_to_be(smp_count);
        bytes.append(&mut v);
        proof {
            assert(bytes@ =~= seq![0x82u8, 2u8] + be_u16_bytes(smp_count));
        }
        bytes
    }

    /// Encodes the configuration revision as its fixed four-byte record.
    pub fn conf_rev_to_bytes(conf_rev: u32) -> (r: Vec<u8>)
        ensures
            r@ == seq![0x83u8, 4u8] + be_u32_bytes(conf_rev),
    {
        let mut bytes: Vec<u8> = Vec::new();
        bytes.push(ASDUTags::ConfRev.byte());
        bytes.push(4);
        let mut v = crate::be::u32_to_be(conf_rev);
        bytes.append(&mut v);
        proof {
            assert(bytes@ =~= seq![0x83u8, 4u8] + be_u32_bytes(conf_rev));
        }
        bytes
    }

    /// Encodes the reference timestamp as its fixed eight-byte record.
    pub fn refr_tm_to_bytes(refr_tm: u64) -> (r: Vec<u8>)
        ensures
            r@ == seq![0x84u8, 8u8] + be_u64_bytes(refr_tm),
    {
        let mut bytes: Vec<u8> = Vec::new();
        bytes.push(ASDUTags::RefrTm.byte());
        bytes.push(8);
        let mut v = crate::be::u64_to_be(refr_tm);
        bytes.append(&mut v);
        proof {
            assert(bytes@ =~= seq![0x84u8, 8u8] + be_u64_bytes(refr_tm));
        }
        bytes
    }

    /// Encodes a synchronization-source byte as its one-byte record.
    pub fn smp_sync_to_bytes(smp_sync: u8) -> (r: Vec<u8>)
        ensures
            r@ == seq![0x85u8, 1u8, smp_sync],
    {
        let mut bytes: Vec<u8> = Vec::new();
        bytes.push(ASDUTags::SmpSync.byte());
        bytes.push(1);
        bytes.push(smp_sync);
        proof {
            assert(bytes@ =~= seq![0x85u8, 1u8, smp_sync]);
        }
        bytes
    }

    /// Encodes the sample rate as its fixed two-byte record.
    pub fn smp_rate_to_bytes(smp_rate: u16) -> (r: Vec<u8>)
        ensures
            r@ == seq![0x86u8, 2u8] + be_u16_bytes(smp_rate),
    {
        let mut bytes: Vec<u8> = Vec::new();
        bytes.push(ASDUTags::SmpRate.byte());
        bytes.push(2);
        let mut v = crate::be::u16_to_be(smp_rate);
        bytes.append(&mut v);
        proof {
            assert(bytes@ =~= seq![0x86u8, 2u8] + be_u16_bytes(smp_rate));
        }
        bytes
    }

    /// Encodes the measurement block as its fixed 64-byte record.
    pub fn measures_to_bytes(measures: &Phases) -> (r: Vec<u8>)
        ensures
            r@ == seq![0x87u8, 64u8] + phases_enc(*measures),
    {
        let mut bytes: Vec<u8> = Vec::new();
        bytes.push(ASDUTags::Measures.byte());
        bytes.push(64);
        let mut v = measures.to_bytes();
        bytes.append(&mut v);
        proof {
            assert(bytes@ =~= seq![0x87u8, 64u8] + phases_enc(*measures));
        }
        bytes
    }

    /// Encodes the sample mode as its fixed two-byte record.
    pub fn smp_mode_to_bytes(smp_mode: u16) -> (r: Vec<u8>)
        ensures
            r@ == seq![0x88u8, 2u8] + be_u16_bytes(smp_mode),
    {
        let mut bytes: Vec<u8> = Vec::new();
        bytes.push(ASDUTags::SmpMode.byte());
        bytes.push(2);
        let mut v = crate::be::u16_to_be(smp_mode);
        bytes.append(&mut v);
        proof {
            assert(bytes@ =~= seq![0x88u8, 2u8] + be_u16_bytes(smp_mode));
        }
        bytes
    }

    /// Encodes the whole unit: its records in wire order, absent optional
    /// fields contributing nothing, exactly as [`asdu_enc`] states.
    #[verifier::spinoff_prover]
    #[verifier::rlimit(100)]
    pub fn to_bytes(&self) -> (r: Vec<u8>)
        requires
            wf_asdu(self@),
        ensures
            r@ == asdu_enc(self@),
    {
        let ghost a = self@;
        let ghost f1 = fld_sv_id(a);
        let ghost f2 = fld_dataset(a);
        let ghost f3 = fld_smp_count(a);
        let ghost f4 = fld_conf_rev(a);
        let ghost f5 = fld_refr_tm(a);
        let ghost f6 = fld_smp_sync(a);
        let ghost f7 = fld_smp_rate(a);
        let ghost f8 = fld_measures(a);
        let ghost f9 = fld_smp_mode(a);
        let mut bytes = Self::sv_id_to_bytes(self.sv_id.as_str());
        match &self.dataset {
            Some(dataset) => {
                let mut d = Self::dataset_to_bytes(dataset.as_str());
                bytes.append(&mut d);
                proof {
                    assert(bytes@ == f1 + f2);
                }
            },
            None => {
                proof {
                    assert(f1 + f2 =~= f1);
                    assert(bytes@ == f1 + f2);
                }
            },
        }
        let mut sc = Self::smp_count_to_bytes(self.smp_count);
        bytes.append(&mut sc);
        proof {
            assert(bytes@ == f1 + f2 + f3);
        }
        let mut cr = Self::conf_rev_to_bytes(self.conf_rev);
        bytes.append(&mut cr);
        proof {
            assert(bytes@ == f1 + f2 + f3 + f4);
        }
        match self.refr_tm {
            Some(refr_tm) => {
                let mut t = Self::refr_tm_to_bytes(refr_tm);
                bytes.append(&mut t);
                proof {
                    assert(bytes@ == f1 + f2 + f3 + f4 + f5);
                }
            },
            None => {
                proof {
                    assert(f1 + f2 + f3 + f4 + f5 =~= f1 + f2 + f3 + f4);
                    assert(bytes@ == f1 + f2 + f3 + f4 + f5);
                }
            },
        }
        let mut ss = Self::smp_sync_to_bytes(self.smp_sync.byte());
        bytes.append(&mut ss);
        proof {
            assert(bytes@ == f1 + f2 + f3 + f4 + f5 + f6);
        }
        match self.smp_rate {
            Some(smp_rate) => {
                let mut x = Self::smp_rate_to_bytes(smp_rate);
                bytes.append(&mut x);
                proof {
                    assert(bytes@ == f1 + f2 + f3 + f4 + f5 + f6 + f7);
                }
            },
            None => {
                proof {
                    assert(f1 + f2 + f3 + f4 + f5 + f6 + f7 =~= f1 + f2 + f3 + f4 + f5 + f6);
                    assert(bytes@ == f1 + f2 + f3 + f4 + f5 + f6 + f7);
                }
            },
        }
        let mut m = Self::measures_to_bytes(&self.measures);
        bytes.append(&mut m);
        proof {
            assert(bytes@ == f1 + f2 + f3 + f4 + f5 + f6 + f7 + f8);
        }
        match self.smp_mode {
            Some(smp_mode) => {
                let mut x = Self::smp_mode_to_bytes(smp_mode);
                bytes.append(&mut x);
                proof {
                    assert(bytes@ == f1 + f2 + f3 + f4 + f5 + f6 + f7 + f8 + f9);
                }
            },
            None => {
                proof {
                    assert(f1 + f2 + f3 + f4 + f5 + f6 + f7 + f8 + f9 =~= f1 + f2 + f3 + f4 + f5
                        + f6 + f7 + f8);
                    assert(bytes@ == f1 + f2 + f3 + f4 + f5 + f6 + f7 + f8 + f9);
                }
            },
        }
        proof {
            reveal(asdu_enc);
            assert(asdu_enc(a) == f1 + f2 + f3 + f4 + f5 + f6 + f7 + f8 + f9);
        }
        bytes
    }

    /// Advances the unit by one sample tick: the rolling sample counter
    /// steps modulo 4800, the three phases of each quantity take the
    /// supplied per-sample values, the neutral takes their sum, and every
    /// quality flag and every other field is left as it was.
    pub fn next(&mut self, current_sample: i32, voltage_sample: i32)
        requires
            -715_827_882 <= current_sample <= 715_827_882,
            -715_827_882 <= voltage_sample <= 715_827_882,
        ensures
            final(self).smp_count == (old(self).smp_count + 1) % 4800,
            final(self).measures == next_measures(
                old(self).measures,
                current_sample,
                voltage_sample,
            ),
            final(self).sv_id == old(self).sv_id,
            final(self).dataset == old(self).dataset,
            final(self).conf_rev == old(self).conf_rev,
            final(self).refr_tm == old(self).refr_tm,
            final(self).smp_sync == old(self).smp_sync,
            final(self).smp_rate == old(self).smp_rate,
            final(self).smp_mode == old(self).smp_mode,
    {
        self.smp_count = ((self.smp_count as u32 + 1) % 4800) as u16;
        self.measures.current.a.value = current_sample;
        self.measures.current.b.value = current_sample;
        self.measures.current.c.value = current_sample;
        self.measures.current.n.value = current_sample + current_sample + current_sample;
        self.measures.voltage.a.value = voltage_sample;
        self.measures.voltage.b.value = voltage_sample;
        self.measures.voltage.c.value = voltage_sample;
        self.measures.voltage.n.value = voltage_sample + voltage_sample + voltage_sample;
    }
}

/// The record of the stream identifier stands at the start of the
/// encoding.
#[verifier::spinoff_prover]
proof fn lemma_rec_sv_id(a: AsduView)
    requires
        wf_asdu(a),
    ensures
        tlv_read(asdu_enc(a), 0) == (TlvView {
            tag: 0x80,
            len: encode_utf8(a.sv_id).len() as u8,
            value: encode_utf8(a.sv_id),
            next: fld_sv_id(a).len() as int,
        }),
{
    reveal(asdu_enc);
    let suf = fld_dataset(a) + fld_smp_count(a) + fld_conf_rev(a) + fld_refr_tm(a) + fld_smp_sync(
        a,
    ) + fld_smp_rate(a) + fld_measures(a) + fld_smp_mode(a);
    let payload = encode_utf8(a.sv_id);
    assert(asdu_enc(a) =~= Seq::empty() + seq![0x80u8, payload.len() as u8] + payload + suf);
    lemma_tlv_read_at(Seq::empty(), 0x80, payload.len() as u8, payload, suf);
}

/// When the dataset name is present, its record follows the stream
/// identifier's.
#[verifier::spinoff_prover]
proof fn lemma_rec_dataset(a: AsduView, d: Seq<char>)
    requires
        wf_asdu(a),
        a.dataset == Some(d),
    ensures
        tlv_read(asdu_enc(a), fld_sv_id(a).len() as int) == (TlvView {
            tag: 0x81,
            len: encode_utf8(d).len() as u8,
            value: encode_utf8(d),
            next: (fld_sv_id(a) + fld_dataset(a)).len() as int,
        }),
{
    reveal(asdu_enc);
    let pre = fld_sv_id(a);
    let suf = fld_smp_count(a) + fld_conf_rev(a) + fld_refr_tm(a) + fld_smp_sync(a) + fld_smp_rate(
        a,
    ) + fld_measures(a) + fld_smp_mode(a);
    let payload = encode_utf8(d);
    assert(asdu_enc(a) =~= pre + seq![0x81u8, payload.len() as u8] + payload + suf);
    lemma_tlv_read_at(pre, 0x81, payload.len() as u8, payload, suf);
}

/// The record of the sample counter stands after the string records.
#[verifier::spinoff_prover]
proof fn lemma_rec_smp_count(a: AsduView)
    requires
        wf_asdu(a),
    ensures
        tlv_read(asdu_enc(a), (fld_sv_id(a) + fld_dataset(a)).len() as int) == (TlvView {
            tag: 0x82,
            len: 2,
            value: be_u16_bytes(a.smp_count),
            next: (fld_sv_id(a) + fld_dataset(a) + fld_smp_count(a)).len() as int,
        }),
{
    reveal(asdu_enc);
    let pre = fld_sv_id(a) + fld_dataset(a);
    let suf = fld_conf_rev(a) + fld_refr_tm(a) + fld_smp_sync(a) + fld_smp_rate(a) + fld_measures(
        a,
    ) + fld_smp_mode(a);
    assert(asdu_enc(a) =~= pre + seq![0x82u8, 2u8] + be_u16_bytes(a.smp_count) + suf);
    lemma_tlv_read_at(pre, 0x82, 2u8, be_u16_bytes(a.smp_count), suf);
}

/// The record of the configuration revision follows the sample counter's.
#[verifier::spinoff_prover]
proof fn lemma_rec_conf_rev(a: AsduView)
    requires
        wf_asdu(a),
    ensures
        tlv_read(
            asdu_enc(a),
            (fld_sv_id(a) + fld_dataset(a) + fld_smp_count(a)).len() as int,
        ) == (TlvView {
            tag: 0x83,
            len: 4,
            value: be_u32_bytes(a.conf_rev),
            next: (fld_sv_id(a) + fld_dataset(a) + fld_smp_count(a) + fld_conf_rev(
                a,
            )).len() as int,
        }),
{
    reveal(asdu_enc);
    let pre = fld_sv_id(a) + fld_dataset(a) + fld_smp_count(a);
    let suf = fld_refr_tm(a) + fld_smp_sync(a) + fld_smp_rate(a) + fld_measures(a) + fld_smp_mode(
        a,
    );
    assert(asdu_enc(a) =~= pre + seq![0x83u8, 4u8] + be_u32_bytes(a.conf_rev) + suf);
    lemma_tlv_read_at(pre, 0x83, 4u8, be_u32_bytes(a.conf_rev), suf);
}

/// When the reference timestamp is present, its record follows the
/// configuration revision's.
#[verifier::spinoff_prover]
proof fn lemma_rec_refr_tm(a: AsduView, t: u64)
    requires
        wf_asdu(a),
        a.refr_tm == Some(t),
    ensures
        tlv_read(
            asdu_enc(a),
            (fld_sv_id(a) + fld_dataset(a) + fld_smp_count(a) + fld_conf_rev(a)).len() as int,
        ) == (TlvView {
            tag: 0x84,
            len: 8,
            value: be_u64_bytes(t),
            next: (fld_sv_id(a) + fld_dataset(a) + fld_smp_count(a) + fld_conf_rev(a) + fld_refr_tm(
                a,
            )).len() as int,
        }),
{
    reveal(asdu_enc);
    let pre = fld_sv_id(a) + fld_dataset(a) + fld_smp_count(a) + fld_conf_rev(a);
    let suf = fld_smp_sync(a) + fld_smp_rate(a) + fld_measures(a) + fld_smp_mode(a);
    assert(asdu_enc(a) =~= pre + seq![0x84u8, 8u8] + be_u64_bytes(t) + suf);
    lemma_tlv_read_at(pre, 0x84, 8u8, be_u64_bytes(t), suf);
}

/// The record of the synchronization source stands after the optional
/// reference timestamp.
#[verifier::spinoff_prover]
proof fn lemma_rec_smp_sync(a: AsduView)
    requires
        wf_asdu(a),
    ensures
        tlv_read(
            asdu_enc(a),
            (fld_sv_id(a) + fld_dataset(a) + fld_smp_count(a) + fld_conf_rev(a) + fld_refr_tm(
                a,
            )).len() as int,
        ) == (TlvView {
            tag: 0x85,
            len: 1,
            value: seq![sync_code(a.smp_sync)],
            next: (fld_sv_id(a) + fld_dataset(a) + fld_smp_count(a) + fld_conf_rev(a) + fld_refr_tm(
                a,
            ) + fld_smp_sync(a)).len() as int,
        }),
{
    reveal(asdu_enc);
    let pre = fld_sv_id(a) + fld_dataset(a) + fld_smp_count(a) + fld_conf_rev(a) + fld_refr_tm(a);
    let suf = fld_smp_rate(a) + fld_measures(a) + fld_smp_mode(a);
    assert(asdu_enc(a) =~= pre + seq![0x85u8, 1u8] + seq![sync_code(a.smp_sync)] + suf);
    lemma_tlv_read_at(pre, 0x85, 1u8, seq![sync_code(a.smp_sync)], suf);
}

/// When the sample rate is present, its record follows the synchronization
/// source's.
#[verifier::spinoff_prover]
proof fn lemma_rec_smp_rate(a: AsduView, x: u16)
    requires
        wf_asdu(a),
        a.smp_rate == Some(x),
    ensures
        tlv_read(
            asdu_enc(a),
            (fld_sv_id(a) + fld_dataset(a) + fld_smp_count(a) + fld_conf_rev(a) + fld_refr_tm(a)
                + fld_smp_sync(a)).len() as int,
        ) == (TlvView {
            tag: 0x86,
            len: 2,
            value: be_u16_bytes(x),
            next: (fld_sv_id(a) + fld_dataset(a) + fld_smp_count(a) + fld_conf_rev(a) + fld_refr_tm(
                a,
            ) + fld_smp_sync(a) + fld_smp_rate(a)).len() as int,
        }),
{
    reveal(asdu_enc);
    let pre = fld_sv_id(a) + fld_dataset(a) + fld_smp_count(a) + fld_conf_rev(a) + fld_refr_tm(a)
        + fld_smp_sync(a);
    let suf = fld_measures(a) + fld_smp_mode(a);
    assert(asdu_enc(a) =~= pre + seq![0x86u8, 2u8] + be_u16_bytes(x) + suf);
    lemma_tlv_read_at(pre, 0x86, 2u8, be_u16_bytes(x), suf);
}

/// The record of the measurement block stands after the optional sample
/// rate.
#[verifier::spinoff_prover]
proof fn lemma_rec_measures(a: AsduView)
    requires
        wf_asdu(a),
    ensures
        tlv_read(
            asdu_enc(a),
            (fld_sv_id(a) + fld_dataset(a) + fld_smp_count(a) + fld_conf_rev(a) + fld_refr_tm(a)
                + fld_smp_sync(a) + fld_smp_rate(a)).len() as int,
        ) == (TlvView {
            tag: 0x87,
            len: 64,
            value: phases_enc(a.measures),
            next: (fld_sv_id(a) + fld_dataset(a) + fld_smp_count(a) + fld_conf_rev(a) + fld_refr_tm(
                a,
            ) + fld_smp_sync(a) + fld_smp_rate(a) + fld_measures(a)).len() as int,
        }),
        phases_enc(a.measures).len() == 64,
{
    reveal(asdu_enc);
    let pre = fld_sv_id(a) + fld_dataset(a) + fld_smp_count(a) + fld_conf_rev(a) + fld_refr_tm(a)
        + fld_smp_sync(a) + fld_smp_rate(a);
    let suf = fld_smp_mode(a);
    assert(phases_enc(a.measures).len() == 64);
    assert(asdu_enc(a) =~= pre + seq![0x87u8, 64u8] + phases_enc(a.measures) + suf);
    lemma_tlv_read_at(pre, 0x87, 64u8, phases_enc(a.measures), suf);
}

/// When the sample mode is present, its record closes the encoding.
#[verifier::spinoff_prover]
proof fn lemma_rec_smp_mode(a: AsduView, x: u16)
    requires
        wf_asdu(a),
        a.smp_mode == Some(x),
    ensures
        tlv_read(
            asdu_enc(a),
            (fld_sv_id(a) + fld_dataset(a) + fld_smp_count(a) + fld_conf_rev(a) + fld_refr_tm(a)
                + fld_smp_sync(a) + fld_smp_rate(a) + fld_measures(a)).len() as int,
        ) == (TlvView {
            tag: 0x88,
            len: 2,
            value: be_u16_bytes(x),
            next: asdu_enc(a).len() as int,
        }),
{
    reveal(asdu_enc);
    let pre = fld_sv_id(a) + fld_dataset(a) + fld_smp_count(a) + fld_conf_rev(a) + fld_refr_tm(a)
        + fld_smp_sync(a) + fld_smp_rate(a) + fld_measures(a);
    assert(asdu_enc(a) =~= pre + seq![0x88u8, 2u8] + be_u16_bytes(x) + Seq::<u8>::empty());
    lemma_tlv_read_at(pre, 0x88, 2u8, be_u16_bytes(x), Seq::<u8>::empty());
}

/// Round trip: decoding the encoding of any well-formed application data
/// unit gives back exactly that unit.
#[verifier::spinoff_prover]
#[verifier::rlimit(100)]
pub proof fn lemma_asdu_round_trip(a: AsduView)
    requires
        wf_asdu(a),
    ensures
        asdu_dec(asdu_enc(a)) == Ok::<AsduView, SvError>(a),
{
    reveal(asdu_dec);
    reveal(asdu_enc);
    let b = asdu_enc(a);
    lemma_rec_sv_id(a);
    vstd::utf8::encode_utf8_valid_utf8(a.sv_id);
    vstd::utf8::encode_utf8_decode_utf8(a.sv_id);
    match a.dataset {
        Some(d) => {
            lemma_rec_dataset(a, d);
            vstd::utf8::encode_utf8_valid_utf8(d);
            vstd::utf8::encode_utf8_decode_utf8(d);
        },
        None => {},
    }
    lemma_rec_smp_count(a);
    lemma_be_u16_round_trip(a.smp_count);
    lemma_rec_conf_rev(a);
    lemma_be_u32_round_trip(a.conf_rev);
    match a.refr_tm {
        Some(t) => {
            lemma_rec_refr_tm(a, t);
            lemma_be_u64_round_trip(t);
        },
        None => {},
    }
    lemma_rec_smp_sync(a);
    match a.smp_rate {
        Some(x) => {
            lemma_rec_smp_rate(a, x);
            lemma_be_u16_round_trip(x);
        },
        None => {},
    }
    lemma_rec_measures(a);
    crate::phases::lemma_phases_round_trip(a.measures);
    match a.smp_mode {
        Some(x) => {
            lemma_rec_smp_mode(a, x);
            lemma_be_u16_round_trip(x);
        },
        None => {},
    }
    assert(sync_of_byte(sync_code(a.smp_sync)) == a.smp_sync);
    assert(asdu_dec(b) == Ok::<AsduView, SvError>(a));
}

/// Round trip the other way: a buffer that is the encoding of some
/// well-formed unit decodes successfully, and re-encoding the decoded unit
/// gives back the buffer, bit for bit.
pub proof fn lemma_asdu_encode_decode(a: AsduView, b: Seq<u8>)
    requires
        wf_asdu(a),
        b == asdu_enc(a),
    ensures
        asdu_dec(b) == Ok::<AsduView, SvError>(a),
        asdu_enc(asdu_dec(b)->Ok_0) == b,
{
    lemma_asdu_round_trip(a);
}

/// The measurement block after one sample tick: each phase of the current
/// block carries the current sample, each phase of the voltage block the
/// voltage sample, each neutral the sum of its three phases, and every
/// quality flag keeps its prior value.
pub open spec fn next_measures(p: Phases, current_sample: i32, voltage_sample: i32) -> Phases
    recommends
        -715_827_882 <= current_sample <= 715_827_882,
        -715_827_882 <= voltage_sample <= 715_827_882,
{
    Phases {
        current: PhaseMeasures {
            a: PhaseMeasurement { value: current_sample, quality: p.current.a.quality },
            b: PhaseMeasurement { value: current_sample, quality: p.current.b.quality },
            c: PhaseMeasurement { value: current_sample, quality: p.current.c.quality },
            n: PhaseMeasurement {
                value: (3 * current_sample as int) as i32,
                quality: p.current.n.quality,
            },
        },
        voltage: PhaseMeasures {
            a: PhaseMeasurement { value: voltage_sample, quality: p.voltage.a.quality },
            b: PhaseMeasurement { value: voltage_sample, quality: p.voltage.b.quality },
            c: PhaseMeasurement { value: voltage_sample, quality: p.voltage.c.quality },
            n: PhaseMeasurement {
                value: (3 * voltage_sample as int) as i32,
                quality: p.voltage.n.quality,
            },
        },
    }
}

} // verus!
