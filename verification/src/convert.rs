//! One access unit rewritten from length-prefixed to start-code-delimited
//! layout.
use vstd::prelude::*;
use crate::bytes::{be32, nal_unit, push_range, push_start_code, read_be32};
use crate::codec::CodecType;

verus! {

/// The NAL type of the record at `at`: read from the byte behind its length
/// field, and 0 where the data ends with that field.
pub open spec fn record_type(data: Seq<u8>, codec: CodecType, at: int) -> u8 {
    if at + 4 < data.len() {
        codec.nal_type_of(data[at + 4])
    } else {
        0
    }
}

/// The record at `at` does not fit: fewer than four bytes are left for its
/// length field, or the field announces more bytes than follow it.
pub open spec fn truncated_at(data: Seq<u8>, at: int) -> bool {
    at + 4 > data.len() || at + 4 + be32(data, at) > data.len()
}

/// The conversion of the records that start at `at`, each a 32-bit
/// big-endian length and a payload of that many bytes. A record whose type
/// is carried out of band leaves no trace; any other becomes a start code and
/// its payload. The first record that does not fit ends the conversion and
/// gives nothing itself.
pub open spec fn annex_b_from(data: Seq<u8>, codec: CodecType, at: int) -> Seq<u8>
    decreases data.len() - at,
{
    if at < 0 || truncated_at(data, at) {
        Seq::empty()
    } else {
        let next = at + 4 + be32(data, at);
        (if codec.out_of_band().contains(record_type(data, codec, at)) {
            Seq::empty()
        } else {
            nal_unit(data.subrange(at + 4, next))
        }) + annex_b_from(data, codec, next)
    }
}

/// The start-code-delimited form of a length-prefixed access unit.
pub open spec fn annex_b(data: Seq<u8>, codec: CodecType) -> Seq<u8> {
    annex_b_from(data, codec, 0)
}

/// Records that fit fill `data` from `at` up to `cut` exactly, and the byte
/// behind each length field lies before `cut`: the last of them is not
/// empty.
pub open spec fn complete_until(data: Seq<u8>, at: int, cut: int) -> bool
    decreases cut - at,
{
    at == cut || (0 <= at && at + 4 < cut && at + 4 + be32(data, at) <= cut && complete_until(
        data,
        at + 4 + be32(data, at),
        cut,
    ))
}

/// Rewrites an access unit from length-prefixed to start-code-delimited
/// layout, dropping the NAL units whose type the profile carries out of
/// band. A record that runs past the end of the data ends the conversion
/// without an error: what was converted before it is the result.
pub fn convert_to_annex_b(data: &[u8], codec: CodecType) -> (converted: Vec<u8>)
    ensures
        converted@ == annex_b(data@, codec),
        converted@.len() <= data@.len(),
{
    proof {
        lemma_conversion_is_no_longer(data@, codec, 0);
    }
    let mut converted: Vec<u8> = Vec::new();
    let mut pos: usize = 0;
    assert(converted@ + annex_b_from(data@, codec, 0) =~= annex_b(data@, codec));
    while data.len() - pos >= 4
        invariant
            pos <= data@.len(),
            annex_b(data@, codec).len() <= data@.len(),
            annex_b(data@, codec) == converted@ + annex_b_from(data@, codec, pos as int),
        decreases data@.len() - pos,
    {
        let nal_size: usize = read_be32(data, pos) as usize;
        let nal_type: u8 = if data.len() - pos > 4 {
            codec.nal_type(data[pos + 4])
        } else {
            0
        };
        let ghost rest = annex_b_from(data@, codec, pos + 4 + nal_size);
        let ghost before = converted@;
        pos = pos + 4;
        if data.len() - pos < nal_size {
            assert(converted@ =~= annex_b(data@, codec));
            return converted;
        }
        if !codec.should_skip_nal(nal_type) {
            push_start_code(&mut converted);
            push_range(&mut converted, data, pos, pos + nal_size);
            assert(before + (nal_unit(data@.subrange(pos as int, pos + nal_size)) + rest)
                =~= converted@ + rest);
        } else {
            assert(before + (Seq::<u8>::empty() + rest) =~= converted@ + rest);
        }
        pos = pos + nal_size;
    }
    assert(converted@ =~= annex_b(data@, codec));
    converted
}

/// The conversion adds no byte: a start code takes the place of each length
/// field, and what is dropped is not replaced.
pub proof fn lemma_conversion_is_no_longer(data: Seq<u8>, codec: CodecType, at: int)
    requires
        0 <= at <= data.len(),
    ensures
        annex_b_from(data, codec, at).len() <= data.len() - at,
    decreases data.len() - at,
{
    if !truncated_at(data, at) {
        lemma_conversion_is_no_longer(data, codec, at + 4 + be32(data, at));
    }
}

/// A record that does not fit, and all that follows it, adds nothing to the
/// conversion.
pub proof fn lemma_truncated_record_gives_nothing(data: Seq<u8>, codec: CodecType, at: int)
    requires
        truncated_at(data, at),
    ensures
        annex_b_from(data, codec, at) == Seq::<u8>::empty(),
{
}

/// Where complete records fill the data up to `cut`, the conversion is that
/// of the data before `cut` followed by that of the records from `cut` on.
pub proof fn lemma_conversion_splits(data: Seq<u8>, codec: CodecType, at: int, cut: int)
    requires
        cut <= data.len(),
        complete_until(data, at, cut),
    ensures
        annex_b_from(data, codec, at) == annex_b_from(data.take(cut), codec, at) + annex_b_from(
            data,
            codec,
            cut,
        ),
    decreases cut - at,
{
    let head = data.take(cut);
    if at == cut {
        assert(annex_b_from(head, codec, at) =~= Seq::<u8>::empty());
        assert(annex_b_from(data, codec, at) =~= Seq::<u8>::empty() + annex_b_from(
            data,
            codec,
            cut,
        ));
    } else {
        let next = at + 4 + be32(data, at);
        assert(be32(head, at) == be32(data, at));
        assert(record_type(head, codec, at) == record_type(data, codec, at));
        assert(head.subrange(at + 4, next) =~= data.subrange(at + 4, next));
        lemma_conversion_splits(data, codec, next, cut);
        let kept = if codec.out_of_band().contains(record_type(data, codec, at)) {
            Seq::<u8>::empty()
        } else {
            nal_unit(data.subrange(at + 4, next))
        };
        assert(kept + (annex_b_from(head, codec, next) + annex_b_from(data, codec, cut)) =~= (kept
            + annex_b_from(head, codec, next)) + annex_b_from(data, codec, cut));
    }
}

/// Truncation is tolerated: data that ends inside a length field, or
/// inside the payload that a length field announces, converts to what the
/// complete records before that point convert to.
pub proof fn lemma_truncation_tolerance(data: Seq<u8>, codec: CodecType, cut: int)
    requires
        cut <= data.len(),
        complete_until(data, 0, cut),
        truncated_at(data, cut),
    ensures
        annex_b(data, codec) == annex_b(data.take(cut), codec),
{
    lemma_conversion_splits(data, codec, 0, cut);
    assert(annex_b_from(data.take(cut), codec, 0) + Seq::<u8>::empty() =~= annex_b_from(
        data.take(cut),
        codec,
        0,
    ));
}

} // verus!
