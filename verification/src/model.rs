//! The protocol data model: tag catalogs, the sample-synchronization
//! enumeration, phase-measurement blocks, the application data unit and the
//! outer sampled-value PDU, together with their mathematical views and
//! well-formedness conditions.

use vstd::prelude::*;
use vstd::utf8::encode_utf8;

verus! {

/// How a decode can fail: a fixed-size, fixed-tag or enumeration mismatch
/// (`Format`), or a record whose declared length reads past the end of the
/// buffer where a whole record is required (`Truncation`).
#[derive(Clone, Copy, PartialEq, Eq, Structural, Debug)]
pub enum SvError {
    Format,
    Truncation,
}

/// Tags of the outer PDU layer.
#[derive(Clone, Copy, PartialEq, Eq, Structural, Debug)]
pub enum PDUTags {
    PDU,
    NoAsdu,
    SeqAsdu,
    ASDU,
}

impl PDUTags {
    /// The wire byte of this tag.
    pub open spec fn spec_byte(self) -> u8 {
        match self {
            PDUTags::PDU => 0x60,
            PDUTags::NoAsdu => 0x80,
            PDUTags::SeqAsdu => 0xa2,
            PDUTags::ASDU => 0x30,
        }
    }

    #[verifier::when_used_as_spec(spec_byte)]
    pub fn byte(self) -> (b: u8)
        ensures
            b == self.spec_byte(),
    {
        match self {
            PDUTags::PDU => 0x60,
            PDUTags::NoAsdu => 0x80,
            PDUTags::SeqAsdu => 0xa2,
            PDUTags::ASDU => 0x30,
        }
    }
}

/// Tags of the fields of one application data unit.
#[derive(Clone, Copy, PartialEq, Eq, Structural, Debug)]
pub enum ASDUTags {
    SvId,
    Dataset,
    SmpCount,
    ConfRev,
    RefrTm,
    SmpSync,
    SmpRate,
    Measures,
    SmpMode,
}

impl ASDUTags {
    /// The wire byte of this tag.
    pub open spec fn spec_byte(self) -> u8 {
        match self {
            ASDUTags::SvId => 0x80,
            ASDUTags::Dataset => 0x81,
            ASDUTags::SmpCount => 0x82,
            ASDUTags::ConfRev => 0x83,
            ASDUTags::RefrTm => 0x84,
            ASDUTags::SmpSync => 0x85,
            ASDUTags::SmpRate => 0x86,
            ASDUTags::Measures => 0x87,
            ASDUTags::SmpMode => 0x88,
        }
    }

    #[verifier::when_used_as_spec(spec_byte)]
    pub fn byte(self) -> (b: u8)
        ensures
            b == self.spec_byte(),
    {
        match self {
            ASDUTags::SvId => 0x80,
            ASDUTags::Dataset => 0x81,
            ASDUTags::SmpCount => 0x82,
            ASDUTags::ConfRev => 0x83,
            ASDUTags::RefrTm => 0x84,
            ASDUTags::SmpSync => 0x85,
            ASDUTags::SmpRate => 0x86,
            ASDUTags::Measures => 0x87,
            ASDUTags::SmpMode => 0x88,
        }
    }
}

/// Synchronization source of the sample stream (IEC 61850-7-2 semantics).
#[derive(Clone, Copy, PartialEq, Eq, Structural, Debug)]
pub enum SampleSync {
    Internal,
    Local,
    Global,
}

/// The wire byte of a synchronization source.
pub open spec fn sync_code(s: SampleSync) -> u8 {
    match s {
        SampleSync::Internal => 0,
        SampleSync::Local => 1,
        SampleSync::Global => 2,
    }
}

impl SampleSync {
    pub fn byte(self) -> (b: u8)
        ensures
            b == sync_code(self),
    {
        match self {
            SampleSync::Internal => 0,
            SampleSync::Local => 1,
            SampleSync::Global => 2,
        }
    }

    /// Reads a synchronization source from its wire byte; any byte other
    /// than the three defined codes is a format error.
    pub fn from_byte(b: u8) -> (r: Result<SampleSync, SvError>)
        ensures
            r is Ok <==> b <= 2,
            r matches Ok(s) ==> sync_code(s) == b,
            r matches Err(e) ==> e == SvError::Format,
    {
        match b {
            0 => Ok(SampleSync::Internal),
            1 => Ok(SampleSync::Local),
            2 => Ok(SampleSync::Global),
            _ => Err(SvError::Format),
        }
    }
}

/// One sampled quantity: a signed magnitude and a signed quality flag word.
#[derive(Clone, Copy, PartialEq, Eq, Structural, Debug)]
pub struct PhaseMeasurement {
    pub value: i32,
    pub quality: i32,
}

/// The three phases and neutral of one quantity.
#[derive(Clone, Copy, PartialEq, Eq, Structural, Debug)]
pub struct PhaseMeasures {
    pub a: PhaseMeasurement,
    pub b: PhaseMeasurement,
    pub c: PhaseMeasurement,
    pub n: PhaseMeasurement,
}

/// Current and voltage blocks of one dataset.
#[derive(Clone, Copy, PartialEq, Eq, Structural, Debug)]
pub struct Phases {
    pub current: PhaseMeasures,
    pub voltage: PhaseMeasures,
}

/// One application data unit: a dataset instance of the sampled-value
/// stream, with its optional fields.
#[derive(Debug)]
pub struct Asdu {
    pub sv_id: String,
    pub dataset: Option<String>,
    pub smp_count: u16,
    pub conf_rev: u32,
    pub refr_tm: Option<u64>,
    pub smp_sync: SampleSync,
    pub smp_rate: Option<u16>,
    pub measures: Phases,
    pub smp_mode: Option<u16>,
}

/// Mathematical view of an application data unit: strings are character
/// sequences, everything else is carried as the plain value.
pub ghost struct AsduView {
    pub sv_id: Seq<char>,
    pub dataset: Option<Seq<char>>,
    pub smp_count: u16,
    pub conf_rev: u32,
    pub refr_tm: Option<u64>,
    pub smp_sync: SampleSync,
    pub smp_rate: Option<u16>,
    pub measures: Phases,
    pub smp_mode: Option<u16>,
}

impl View for Asdu {
    type V = AsduView;

    open spec fn view(&self) -> AsduView {
        AsduView {
            sv_id: self.sv_id@,
            dataset: match self.dataset {
                Some(d) => Some(d@),
                None => None,
            },
            smp_count: self.smp_count,
            conf_rev: self.conf_rev,
            refr_tm: self.refr_tm,
            smp_sync: self.smp_sync,
            smp_rate: self.smp_rate,
            measures: self.measures,
            smp_mode: self.smp_mode,
        }
    }
}

impl DeepView for Asdu {
    type V = AsduView;

    open spec fn deep_view(&self) -> AsduView {
        self.view()
    }
}

/// An application data unit is well formed when each of its strings has a
/// UTF-8 encoding short enough for a one-byte length field.
pub open spec fn wf_asdu(a: AsduView) -> bool {
    &&& encode_utf8(a.sv_id).len() <= 255
    &&& match a.dataset {
        Some(d) => encode_utf8(d).len() <= 255,
        None => true,
    }
}

impl PartialEq for Asdu {
    fn eq(&self, other: &Asdu) -> (r: bool) {
        let datasets_eq = match (&self.dataset, &other.dataset) {
            (Some(a), Some(b)) => *a == *b,
            (None, None) => true,
            _ => false,
        };
        proof {
            assert(datasets_eq == (self@.dataset == other@.dataset));
        }
        let refr_tm_eq = match (self.refr_tm, other.refr_tm) {
            (Some(a), Some(b)) => a == b,
            (None, None) => true,
            _ => false,
        };
        let smp_rate_eq = match (self.smp_rate, other.smp_rate) {
            (Some(a), Some(b)) => a == b,
            (None, None) => true,
            _ => false,
        };
        let smp_mode_eq = match (self.smp_mode, other.smp_mode) {
            (Some(a), Some(b)) => a == b,
            (None, None) => true,
            _ => false,
        };
        let r = self.sv_id == other.sv_id && datasets_eq && self.smp_count == other.smp_count
            && self.conf_rev == other.conf_rev && refr_tm_eq && self.smp_sync == other.smp_sync
            && smp_rate_eq && self.measures == other.measures && smp_mode_eq;
        proof {
            if r {
                assert(self@ == other@);
            } else {
                assert(self@ != other@);
            }
        }
        r
    }
}

impl vstd::std_specs::cmp::PartialEqSpecImpl for Asdu {
    open spec fn obeys_eq_spec() -> bool {
        true
    }

    open spec fn eq_spec(&self, other: &Asdu) -> bool {
        self@ == other@
    }
}

/// The outer sampled-value PDU: header fields and the carried sequence of
/// application data units. `simulation` duplicates bit 3 of `reserved1[0]`.
#[derive(Debug)]
pub struct SampledValue {
    pub app_id: u16,
    pub length: u16,
    pub simulation: bool,
    pub reserved1: [u8; 2],
    pub reserved2: [u8; 2],
    pub number_of_asdu: u16,
    pub asdu: Vec<Asdu>,
}

/// Mathematical view of a sampled-value PDU.
pub ghost struct SvView {
    pub app_id: u16,
    pub length: u16,
    pub simulation: bool,
    pub reserved1: Seq<u8>,
    pub reserved2: Seq<u8>,
    pub number_of_asdu: u16,
    pub asdu: Seq<AsduView>,
}

impl View for SampledValue {
    type V = SvView;

    open spec fn view(&self) -> SvView {
        SvView {
            app_id: self.app_id,
            length: self.length,
            simulation: self.simulation,
            reserved1: self.reserved1@,
            reserved2: self.reserved2@,
            number_of_asdu: self.number_of_asdu,
            asdu: self.asdu.deep_view(),
        }
    }
}

impl DeepView for SampledValue {
    type V = SvView;

    open spec fn deep_view(&self) -> SvView {
        self.view()
    }
}

impl PartialEq for SampledValue {
    fn eq(&self, other: &SampledValue) -> (r: bool) {
        proof {
            assert(self@.asdu.len() == self.asdu.len());
            assert(other@.asdu.len() == other.asdu.len());
        }
        if self.asdu.len() != other.asdu.len() {
            return false;
        }
        let n = self.asdu.len();
        let mut i: usize = 0;
        let mut elems_eq = true;
        proof {
            assert(self@.asdu.take(0) =~= other@.asdu.take(0));
        }
        while i < n
            invariant
                n == self.asdu.len() == other.asdu.len(),
                0 <= i <= n,
                elems_eq <==> self@.asdu.take(i as int) == other@.asdu.take(i as int),
            decreases n - i,
        {
            proof {
                assert(self@.asdu.take(i as int + 1).drop_last() =~= self@.asdu.take(i as int));
                assert(other@.asdu.take(i as int + 1).drop_last() =~= other@.asdu.take(i as int));
                assert(self@.asdu.take(i as int + 1).last() == self@.asdu[i as int]);
                assert(other@.asdu.take(i as int + 1).last() == other@.asdu[i as int]);
            }
            if !(self.asdu[i].eq(&other.asdu[i])) {
                elems_eq = false;
            }
            proof {
                if self@.asdu[i as int] == other@.asdu[i as int] && self@.asdu.take(i as int)
                    == other@.asdu.take(i as int) {
                    assert(self@.asdu.take(i as int + 1) =~= other@.asdu.take(i as int + 1));
                } else {
                    assert(self@.asdu.take(i as int + 1) != other@.asdu.take(i as int + 1));
                }
            }
            i = i + 1;
        }
        proof {
            assert(self@.asdu.take(n as int) =~= self@.asdu);
            assert(other@.asdu.take(n as int) =~= other@.asdu);
        }
        let r1_eq = self.reserved1[0] == other.reserved1[0] && self.reserved1[1]
            == other.reserved1[1];
        let r2_eq = self.reserved2[0] == other.reserved2[0] && self.reserved2[1]
            == other.reserved2[1];
        proof {
            if r1_eq {
                assert(self.reserved1@ =~= other.reserved1@);
            }
            if r2_eq {
                assert(self.reserved2@ =~= other.reserved2@);
            }
        }
        self.app_id == other.app_id && self.length == other.length && self.simulation
            == other.simulation && r1_eq && r2_eq && self.number_of_asdu == other.number_of_asdu
            && elems_eq
    }
}

impl vstd::std_specs::cmp::PartialEqSpecImpl for SampledValue {
    open spec fn obeys_eq_spec() -> bool {
        true
    }

    open spec fn eq_spec(&self, other: &SampledValue) -> bool {
        self@ == other@
    }
}

} // verus!
