//! The parameter sets that a container keeps out of band, read from its codec
//! configuration record.
use vstd::prelude::*;
use crate::bytes::{be16, nal_unit, push_range, push_start_code, read_be16, start_code};
use crate::codec::CodecType;
use crate::error::{ConvertError, ParseError};

verus! {

/// The parameter sets of one stream. Each buffer holds zero or more NAL units
/// in start-code-delimited layout, in the order in which the configuration
/// record lists them.
#[derive(Debug, Clone, PartialEq, Eq)]
pub struct ParameterSets {
    pub vps: Vec<u8>,
    pub sps: Vec<u8>,
    pub pps: Vec<u8>,
}

/// The three buffers of a `ParameterSets` as sequences of bytes.
pub struct ParameterSetsView {
    pub vps: Seq<u8>,
    pub sps: Seq<u8>,
    pub pps: Seq<u8>,
}

impl View for ParameterSets {
    type V = ParameterSetsView;

    open spec fn view(&self) -> ParameterSetsView {
        ParameterSetsView { vps: self.vps@, sps: self.sps@, pps: self.pps@ }
    }
}

/// Why a run of `{length, payload}` entries ended before its count was
/// reached.
#[derive(Debug, Clone, Copy, PartialEq, Eq, Structural)]
pub enum Truncation {
    /// The two bytes of a length field do not fit.
    Length,
    /// The payload that a length field announces does not fit.
    Payload,
}

/// What reading a run of entries gives: the NAL units of the entries that
/// fit, the position at which reading stopped, and why it stopped early, if it
/// did.
pub struct Scan {
    pub units: Seq<u8>,
    pub end: int,
    pub fault: Option<Truncation>,
}

/// Reads up to `count` entries that start at `at`, each a 16-bit big-endian
/// length and a payload of that many bytes. Reading stops at the first entry
/// that does not fit: before its length field, or behind it where only the
/// payload is too long.
pub open spec fn entries(data: Seq<u8>, at: int, count: nat) -> Scan
    decreases count,
{
    if count == 0 {
        Scan { units: Seq::empty(), end: at, fault: None }
    } else if at + 2 > data.len() {
        Scan { units: Seq::empty(), end: at, fault: Some(Truncation::Length) }
    } else if at + 2 + be16(data, at) > data.len() {
        Scan { units: Seq::empty(), end: at + 2, fault: Some(Truncation::Payload) }
    } else {
        let next = at + 2 + be16(data, at);
        let rest = entries(data, next, (count - 1) as nat);
        Scan {
            units: nal_unit(data.subrange(at + 2, next)) + rest.units,
            end: rest.end,
            fault: rest.fault,
        }
    }
}

/// What a profile asks of its parameter sets: a sequence and a picture
/// parameter set, and for H.265 a video parameter set too.
pub open spec fn validation(sets: ParameterSetsView, codec: CodecType) -> Result<(), ConvertError> {
    if sets.sps.len() == 0 || sets.pps.len() == 0 {
        Err(ConvertError::MissingParameterSets)
    } else if codec == CodecType::H265 && sets.vps.len() == 0 {
        Err(ConvertError::MissingVps)
    } else {
        Ok(())
    }
}

/// The parameter sets are complete for the profile.
pub open spec fn valid_for(sets: ParameterSetsView, codec: CodecType) -> bool {
    &&& sets.sps.len() > 0
    &&& sets.pps.len() > 0
    &&& codec == CodecType::H265 ==> sets.vps.len() > 0
}

/// The parameter sets, if they are complete for the profile, and else what
/// is missing.
pub open spec fn checked(
    sets: ParameterSetsView,
    codec: CodecType,
) -> Result<ParameterSetsView, ConvertError> {
    match validation(sets, codec) {
        Ok(_) => Ok(sets),
        Err(e) => Err(e),
    }
}

/// The bytes that carry the parameter sets in band: for H.265 the video
/// parameter sets first, then for both profiles the sequence and the picture
/// parameter sets.
pub open spec fn in_band(sets: ParameterSetsView, codec: CodecType) -> Seq<u8> {
    (if codec == CodecType::H265 {
        sets.vps
    } else {
        Seq::empty()
    }) + sets.sps + sets.pps
}

/// The parameter sets of an AVC configuration record: a header of five
/// bytes, a byte whose low five bits count the SPS entries, those entries, a
/// byte that counts the PPS entries, and those entries. An entry that does
/// not fit fails the whole record.
pub open spec fn avcc_sets(data: Seq<u8>) -> Result<ParameterSetsView, ConvertError> {
    if data.len() < 7 {
        Err(ConvertError::Parse(ParseError::AvccHeaderTooShort))
    } else {
        let sps = entries(data, 6, (data[5] & 0x1F) as nat);
        match sps.fault {
            Some(Truncation::Length) => Err(ConvertError::Parse(ParseError::InvalidSpsLength)),
            Some(Truncation::Payload) => Err(ConvertError::Parse(ParseError::SpsTruncated)),
            None => if sps.end >= data.len() {
                Err(ConvertError::Parse(ParseError::MissingPps))
            } else {
                let pps = entries(data, sps.end + 1, data[sps.end] as nat);
                match pps.fault {
                    Some(Truncation::Length) => Err(
                        ConvertError::Parse(ParseError::InvalidPpsLength),
                    ),
                    Some(Truncation::Payload) => Err(ConvertError::Parse(ParseError::PpsTruncated)),
                    None => checked(
                        ParameterSetsView { vps: Seq::empty(), sps: sps.units, pps: pps.units },
                        CodecType::H264,
                    ),
                }
            },
        }
    }
}

/// The NAL units of type `wanted` in up to `arrays` parameter-set arrays that
/// start at `at`. An array is a byte whose low six bits give the NAL type of
/// its entries, a 16-bit big-endian count, and the entries. An array whose
/// header does not fit ends the enumeration; an entry that does not fit ends
/// its array, and the next array is read from where that entry stopped.
pub open spec fn hvcc_units(data: Seq<u8>, at: int, arrays: nat, wanted: u8) -> Seq<u8>
    decreases arrays,
{
    if arrays == 0 || at + 3 > data.len() {
        Seq::empty()
    } else {
        let scan = entries(data, at + 3, be16(data, at + 1) as nat);
        (if data[at] & 0x3F == wanted {
            scan.units
        } else {
            Seq::empty()
        }) + hvcc_units(data, scan.end, (arrays - 1) as nat, wanted)
    }
}

/// The parameter sets of an HEVC configuration record: a header of 22 bytes,
/// a byte that counts the arrays, and the arrays. Types 32, 33 and 34 are the
/// video, sequence and picture parameter sets; other types are passed over.
pub open spec fn hvcc_sets(data: Seq<u8>) -> Result<ParameterSetsView, ConvertError> {
    if data.len() < 23 {
        Err(ConvertError::Parse(ParseError::HvccHeaderTooShort))
    } else {
        checked(
            ParameterSetsView {
                vps: hvcc_units(data, 23, data[22] as nat, 32),
                sps: hvcc_units(data, 23, data[22] as nat, 33),
                pps: hvcc_units(data, 23, data[22] as nat, 34),
            },
            CodecType::H265,
        )
    }
}

/// The parameter sets of a configuration record of the given profile.
pub open spec fn parsed_sets(
    data: Seq<u8>,
    codec: CodecType,
) -> Result<ParameterSetsView, ConvertError> {
    match codec {
        CodecType::H264 => avcc_sets(data),
        CodecType::H265 => hvcc_sets(data),
    }
}

/// A parse result holds the parameter sets, or the error, that the record
/// stands for.
pub open spec fn agrees(
    r: Result<ParameterSets, ConvertError>,
    expected: Result<ParameterSetsView, ConvertError>,
) -> bool {
    match expected {
        Ok(sets) => r is Ok && r->Ok_0@ == sets,
        Err(e) => r == Err::<ParameterSets, ConvertError>(e),
    }
}

/// Reads a run of entries; the NAL units go to `out` where `keep` is set.
fn read_entries(
    data: &[u8],
    at: usize,
    count: usize,
    keep: bool,
    out: &mut Vec<u8>,
) -> (r: (usize, Option<Truncation>))
    requires
        at <= data@.len(),
    ensures
        r.0 == entries(data@, at as int, count as nat).end,
        r.1 == entries(data@, at as int, count as nat).fault,
        r.0 <= data@.len(),
        final(out)@ == old(out)@ + (if keep {
            entries(data@, at as int, count as nat).units
        } else {
            Seq::empty()
        }),
{
    let ghost whole = entries(data@, at as int, count as nat);
    let ghost mut done: Seq<u8> = Seq::empty();
    let mut pos: usize = at;
    let mut left: usize = count;
    assert(whole.units =~= done + whole.units);
    assert(out@ =~= old(out)@ + Seq::<u8>::empty());
    while left > 0
        invariant
            pos <= data@.len(),
            whole == entries(data@, at as int, count as nat),
            whole.units == done + entries(data@, pos as int, left as nat).units,
            whole.end == entries(data@, pos as int, left as nat).end,
            whole.fault == entries(data@, pos as int, left as nat).fault,
            out@ == old(out)@ + (if keep {
                done
            } else {
                Seq::empty()
            }),
        decreases left,
    {
        if data.len() - pos < 2 {
            assert(whole.units =~= done);
            return (pos, Some(Truncation::Length));
        }
        let size: usize = read_be16(data, pos);
        pos = pos + 2;
        if data.len() - pos < size {
            assert(whole.units =~= done);
            return (pos, Some(Truncation::Payload));
        }
        let ghost rest = entries(data@, pos + size, (left - 1) as nat);
        let ghost unit = nal_unit(data@.subrange(pos as int, pos + size));
        assert(whole.units =~= (done + unit) + rest.units);
        if keep {
            push_start_code(out);
            push_range(out, data, pos, pos + size);
            assert(out@ =~= old(out)@ + (done + unit));
        }
        proof {
            done = done + unit;
        }
        pos = pos + size;
        left = left - 1;
    }
    assert(whole.units =~= done);
    (pos, None)
}

impl ParameterSets {
    pub const AVCC_HEADER_SIZE: usize = 5;
    pub const HVCC_HEADER_SIZE: usize = 22;

    /// Reads the parameter sets out of a codec configuration record and
    /// checks that none that the profile needs is missing.
    pub fn parse(extradata: &[u8], codec: CodecType) -> (r: Result<ParameterSets, ConvertError>)
        ensures
            agrees(r, parsed_sets(extradata@, codec)),
            r is Ok ==> valid_for(r->Ok_0@, codec),
    {
        match codec {
            CodecType::H264 => Self::parse_avcc(extradata),
            CodecType::H265 => Self::parse_hvcc(extradata),
        }
    }

    /// Reads an AVC configuration record. A record that ends inside an entry
    /// is refused, with the place at which it ends.
    pub fn parse_avcc(extradata: &[u8]) -> (r: Result<ParameterSets, ConvertError>)
        ensures
            agrees(r, avcc_sets(extradata@)),
            r is Ok ==> valid_for(r->Ok_0@, CodecType::H264),
    {
        if extradata.len() < Self::AVCC_HEADER_SIZE + 2 {
            return Err(ConvertError::Parse(ParseError::AvccHeaderTooShort));
        }
        let mut sps_nals: Vec<u8> = Vec::new();
        let mut pps_nals: Vec<u8> = Vec::new();

        let num_sps: u8 = extradata[Self::AVCC_HEADER_SIZE] & 0x1F;
        let (offset, fault) = read_entries(
            extradata,
            Self::AVCC_HEADER_SIZE + 1,
            num_sps as usize,
            true,
            &mut sps_nals,
        );
        match fault {
            Some(Truncation::Length) => {
                return Err(ConvertError::Parse(ParseError::InvalidSpsLength));
            },
            Some(Truncation::Payload) => {
                return Err(ConvertError::Parse(ParseError::SpsTruncated));
            },
            None => {},
        }
        if offset >= extradata.len() {
            return Err(ConvertError::Parse(ParseError::MissingPps));
        }
        let num_pps: u8 = extradata[offset];
        let (_, fault) = read_entries(extradata, offset + 1, num_pps as usize, true, &mut pps_nals);
        match fault {
            Some(Truncation::Length) => {
                return Err(ConvertError::Parse(ParseError::InvalidPpsLength));
            },
            Some(Truncation::Payload) => {
                return Err(ConvertError::Parse(ParseError::PpsTruncated));
            },
            None => {},
        }
        assert(sps_nals@ =~= entries(extradata@, 6, num_sps as nat).units);
        assert(pps_nals@ =~= entries(extradata@, offset + 1, num_pps as nat).units);
        let sets = ParameterSets { vps: Vec::new(), sps: sps_nals, pps: pps_nals };
        match sets.validate(CodecType::H264) {
            Ok(()) => Ok(sets),
            Err(e) => Err(e),
        }
    }

    /// Reads an HEVC configuration record. A record that ends inside an
    /// array gives the parameter sets that were complete before that point.
    pub fn parse_hvcc(extradata: &[u8]) -> (r: Result<ParameterSets, ConvertError>)
        ensures
            agrees(r, hvcc_sets(extradata@)),
            r is Ok ==> valid_for(r->Ok_0@, CodecType::H265),
    {
        if extradata.len() < Self::HVCC_HEADER_SIZE + 1 {
            return Err(ConvertError::Parse(ParseError::HvccHeaderTooShort));
        }
        let mut vps_nals: Vec<u8> = Vec::new();
        let mut sps_nals: Vec<u8> = Vec::new();
        let mut pps_nals: Vec<u8> = Vec::new();

        let num_arrays: u8 = extradata[Self::HVCC_HEADER_SIZE];
        let mut offset: usize = Self::HVCC_HEADER_SIZE + 1;
        let mut left: u8 = num_arrays;
        let ghost all_vps = hvcc_units(extradata@, 23, num_arrays as nat, 32);
        let ghost all_sps = hvcc_units(extradata@, 23, num_arrays as nat, 33);
        let ghost all_pps = hvcc_units(extradata@, 23, num_arrays as nat, 34);
        assert(all_vps =~= vps_nals@ + all_vps);
        assert(all_sps =~= sps_nals@ + all_sps);
        assert(all_pps =~= pps_nals@ + all_pps);
        while left > 0 && extradata.len() - offset >= 3
            invariant
                offset <= extradata@.len(),
                all_vps == vps_nals@ + hvcc_units(extradata@, offset as int, left as nat, 32),
                all_sps == sps_nals@ + hvcc_units(extradata@, offset as int, left as nat, 33),
                all_pps == pps_nals@ + hvcc_units(extradata@, offset as int, left as nat, 34),
            decreases left,
        {
            let nal_type: u8 = extradata[offset] & 0x3F;
            let num_nals: usize = read_be16(extradata, offset + 1);
            let ghost scan = entries(extradata@, offset + 3, num_nals as nat);
            let ghost vps_before = vps_nals@;
            let ghost sps_before = sps_nals@;
            let ghost pps_before = pps_nals@;
            let (end, _) = if nal_type == CodecType::H265_NAL_VPS {
                read_entries(extradata, offset + 3, num_nals, true, &mut vps_nals)
            } else if nal_type == CodecType::H265_NAL_SPS {
                read_entries(extradata, offset + 3, num_nals, true, &mut sps_nals)
            } else if nal_type == CodecType::H265_NAL_PPS {
                read_entries(extradata, offset + 3, num_nals, true, &mut pps_nals)
            } else {
                // Entries of any other type are read past and not kept.
                read_entries(extradata, offset + 3, num_nals, false, &mut vps_nals)
            };
            offset = end;
            left = left - 1;
            proof {
                let rest_vps = hvcc_units(extradata@, offset as int, left as nat, 32);
                let rest_sps = hvcc_units(extradata@, offset as int, left as nat, 33);
                let rest_pps = hvcc_units(extradata@, offset as int, left as nat, 34);
                let none = Seq::<u8>::empty();
                let of_vps = if nal_type == 32 { scan.units } else { none };
                let of_sps = if nal_type == 33 { scan.units } else { none };
                let of_pps = if nal_type == 34 { scan.units } else { none };
                assert(vps_before + (of_vps + rest_vps) =~= vps_nals@ + rest_vps);
                assert(sps_before + (of_sps + rest_sps) =~= sps_nals@ + rest_sps);
                assert(pps_before + (of_pps + rest_pps) =~= pps_nals@ + rest_pps);
            }
        }
        assert(vps_nals@ =~= all_vps);
        assert(sps_nals@ =~= all_sps);
        assert(pps_nals@ =~= all_pps);
        let sets = ParameterSets { vps: vps_nals, sps: sps_nals, pps: pps_nals };
        match sets.validate(CodecType::H265) {
            Ok(()) => Ok(sets),
            Err(e) => Err(e),
        }
    }

    /// Appends the parameter sets to `buffer`, in the order in which a
    /// decoder of the profile expects them.
    pub fn write_to(&self, codec: CodecType, buffer: &mut Vec<u8>)
        ensures
            final(buffer)@ == old(buffer)@ + in_band(self@, codec),
    {
        if codec == CodecType::H265 {
            buffer.extend_from_slice(self.vps.as_slice());
        }
        buffer.extend_from_slice(self.sps.as_slice());
        buffer.extend_from_slice(self.pps.as_slice());
        assert(buffer@ =~= old(buffer)@ + in_band(self@, codec));
    }

    /// Checks that no parameter set that the profile needs is missing.
    pub fn validate(&self, codec: CodecType) -> (r: Result<(), ConvertError>)
        ensures
            r == validation(self@, codec),
            r is Ok <==> valid_for(self@, codec),
    {
        if self.sps.is_empty() || self.pps.is_empty() {
            return Err(ConvertError::MissingParameterSets);
        }
        if codec == CodecType::H265 && self.vps.is_empty() {
            return Err(ConvertError::MissingVps);
        }
        Ok(())
    }
}

/// A buffer of NAL units is empty or begins with a start code.
pub open spec fn begins_with_start_code(units: Seq<u8>) -> bool {
    units.len() == 0 || (units.len() >= 4 && units.take(4) == start_code())
}

/// What a run of entries gives begins with a start code, and reading stops
/// within the data.
pub proof fn lemma_entries_shape(data: Seq<u8>, at: int, count: nat)
    requires
        0 <= at <= data.len(),
    ensures
        begins_with_start_code(entries(data, at, count).units),
        at <= entries(data, at, count).end <= data.len(),
    decreases count,
{
    if count > 0 && at + 2 <= data.len() && at + 2 + be16(data, at) <= data.len() {
        let next = at + 2 + be16(data, at);
        lemma_entries_shape(data, next, (count - 1) as nat);
        assert(entries(data, at, count).units.take(4) =~= start_code());
    }
}

/// The NAL units of one type that a run of arrays gives begin with a start
/// code.
pub proof fn lemma_hvcc_units_shape(data: Seq<u8>, at: int, arrays: nat, wanted: u8)
    requires
        0 <= at <= data.len(),
    ensures
        begins_with_start_code(hvcc_units(data, at, arrays, wanted)),
    decreases arrays,
{
    if arrays > 0 && at + 3 <= data.len() {
        let scan = entries(data, at + 3, be16(data, at + 1) as nat);
        lemma_entries_shape(data, at + 3, be16(data, at + 1) as nat);
        lemma_hvcc_units_shape(data, scan.end, (arrays - 1) as nat, wanted);
        let rest = hvcc_units(data, scan.end, (arrays - 1) as nat, wanted);
        if data[at] & 0x3F == wanted && scan.units.len() > 0 {
            assert((scan.units + rest).take(4) =~= scan.units.take(4));
        } else {
            assert(hvcc_units(data, at, arrays, wanted) =~= rest);
        }
    }
}

/// Every buffer of the parameter sets that a configuration record gives is
/// empty or begins with a start code, and the buffers that the profile
/// needs are not empty.
pub proof fn lemma_parsed_sets_shape(data: Seq<u8>, codec: CodecType)
    requires
        parsed_sets(data, codec) is Ok,
    ensures
        valid_for(parsed_sets(data, codec)->Ok_0, codec),
        begins_with_start_code(parsed_sets(data, codec)->Ok_0.vps),
        begins_with_start_code(parsed_sets(data, codec)->Ok_0.sps),
        begins_with_start_code(parsed_sets(data, codec)->Ok_0.pps),
        codec == CodecType::H264 ==> parsed_sets(data, codec)->Ok_0.vps.len() == 0,
{
    match codec {
        CodecType::H264 => {
            let sps = entries(data, 6, (data[5] & 0x1F) as nat);
            lemma_entries_shape(data, 6, (data[5] & 0x1F) as nat);
            lemma_entries_shape(data, sps.end + 1, data[sps.end] as nat);
        },
        CodecType::H265 => {
            lemma_hvcc_units_shape(data, 23, data[22] as nat, 32);
            lemma_hvcc_units_shape(data, 23, data[22] as nat, 33);
            lemma_hvcc_units_shape(data, 23, data[22] as nat, 34);
        },
    }
}

/// Parameter sets with a sequence and a picture parameter set and no video
/// parameter set are complete for H.264 and not for H.265; without a
/// sequence or a picture parameter set they are complete for neither.
pub proof fn lemma_validation_by_profile(sets: ParameterSetsView, codec: CodecType)
    ensures
        sets.sps.len() > 0 && sets.pps.len() > 0 && sets.vps.len() == 0 ==> validation(
            sets,
            CodecType::H264,
        ) is Ok && validation(sets, CodecType::H265) == Err::<(), ConvertError>(
            ConvertError::MissingVps,
        ),
        sets.sps.len() == 0 || sets.pps.len() == 0 ==> validation(sets, codec) == Err::<
            (),
            ConvertError,
        >(ConvertError::MissingParameterSets),
        validation(sets, codec) is Ok <==> valid_for(sets, codec),
{
}

} // verus!
