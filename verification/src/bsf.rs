//! The decisions of the backend that hands the conversion to a native
//! bitstream filter: which filter serves a codec, and what a return code of
//! the filter means. The calls into the filter are the caller's.
use vstd::prelude::*;
use crate::codec::{profile_of, CodecId, CodecType};
use crate::error::{ConvertError, FilterStage};

verus! {

/// The name of the filter that serves a profile, with the NUL byte that ends
/// a C string.
pub open spec fn filter_of(codec: CodecType) -> Seq<char> {
    match codec {
        CodecType::H264 => "h264_mp4toannexb\0"@,
        CodecType::H265 => "hevc_mp4toannexb\0"@,
    }
}

/// A result names the filter that serves the codec, or refuses the codec as
/// unsupported.
pub open spec fn names_filter_of(r: Result<&'static str, ConvertError>, id: CodecId) -> bool {
    match profile_of(id) {
        Some(codec) => r is Ok && r->Ok_0@ == filter_of(codec),
        None => r == Err::<&'static str, ConvertError>(ConvertError::UnsupportedCodec(id)),
    }
}

/// What a return code of a step other than receiving means: a negative code
/// is a failure of that step.
pub open spec fn status_of(stage: FilterStage, ret: i32) -> Result<(), ConvertError> {
    if ret < 0 {
        Err(ConvertError::Filter { stage, code: ret })
    } else {
        Ok(())
    }
}

/// What a return code of receiving means, `again` and `invalid` being the
/// platform's error numbers for "try again" and "invalid argument": the
/// negative of either says that the filter has nothing more to give, any
/// other negative code is a failure, and any other code announces a packet.
pub open spec fn received(ret: i32, again: i32, invalid: i32) -> Result<bool, ConvertError> {
    if ret == -again || ret == -invalid {
        Ok(false)
    } else if ret < 0 {
        Err(ConvertError::Filter { stage: FilterStage::Receive, code: ret })
    } else {
        Ok(true)
    }
}

/// The platform's error number for "try again", `libc::EAGAIN`. The value
/// differs between platforms in size and in sign, so nothing is claimed of
/// it.
#[verifier::external_body]
fn errno_again() -> (code: i32) {
    libc::EAGAIN
}

/// The platform's error number for "invalid argument", `libc::EINVAL`. The
/// value differs between platforms in size and in sign, so nothing is
/// claimed of it.
#[verifier::external_body]
fn errno_invalid() -> (code: i32) {
    libc::EINVAL
}

/// Picks the filter that rewrites a stream of this codec.
pub fn filter_name(id: CodecId) -> (r: Result<&'static str, ConvertError>)
    ensures
        names_filter_of(r, id),
{
    match id {
        CodecId::H264 => Ok("h264_mp4toannexb\0"),
        CodecId::H265 => Ok("hevc_mp4toannexb\0"),
        CodecId::Hevc => Ok("hevc_mp4toannexb\0"),
        other => Err(ConvertError::UnsupportedCodec(other)),
    }
}

/// Reads the return code of allocating, initialising or sending.
pub fn check_status(stage: FilterStage, ret: i32) -> (r: Result<(), ConvertError>)
    ensures
        r == status_of(stage, ret),
{
    if ret < 0 {
        return Err(ConvertError::Filter { stage, code: ret });
    }
    Ok(())
}

/// Reads the return code of receiving against the two error numbers that
/// say "nothing more": `Ok(true)` where a packet was handed out.
pub fn receive_status(ret: i32, again: i32, invalid: i32) -> (r: Result<bool, ConvertError>)
    ensures
        r == received(ret, again, invalid),
{
    let code: i64 = ret as i64;
    if code == -(again as i64) || code == -(invalid as i64) {
        Ok(false)
    } else if ret < 0 {
        Err(ConvertError::Filter { stage: FilterStage::Receive, code: ret })
    } else {
        Ok(true)
    }
}

/// Reads the return code of receiving on this platform: the result is what
/// `received` gives for the platform's two error numbers, whatever they are.
/// So a failure carries the code, and only a code that is not negative is a packet.
pub fn receive_packet_status(ret: i32) -> (r: Result<bool, ConvertError>)
    ensures
        exists|again: i32, invalid: i32| r == #[trigger] received(ret, again, invalid),
        r is Err ==> ret < 0 && r == Err::<bool, ConvertError>(
            ConvertError::Filter { stage: FilterStage::Receive, code: ret },
        ),
        r == Ok::<bool, ConvertError>(true) ==> ret >= 0,
        ret >= 0 ==> r is Ok,
        ret == i32::MIN ==> r is Err,
{
    let again: i32 = errno_again();
    let invalid: i32 = errno_invalid();
    let r = receive_status(ret, again, invalid);
    assert(r == received(ret, again, invalid));
    r
}

/// What a return code of receiving means on every platform, whatever its
/// error numbers are: a code that is not negative never is a failure, a
/// negative code never announces a packet, and the lowest code of all, which
/// is the negative of no number, always is a failure.
pub proof fn lemma_received_on_every_platform(ret: i32, again: i32, invalid: i32)
    ensures
        ret >= 0 ==> received(ret, again, invalid) is Ok,
        ret < 0 ==> received(ret, again, invalid) != Ok::<bool, ConvertError>(true),
        ret == i32::MIN ==> received(ret, again, invalid) == Err::<bool, ConvertError>(
            ConvertError::Filter { stage: FilterStage::Receive, code: ret },
        ),
        ret != -again && ret != -invalid ==> received(ret, again, invalid) == (if ret < 0 {
            Err::<bool, ConvertError>(
                ConvertError::Filter { stage: FilterStage::Receive, code: ret },
            )
        } else {
            Ok::<bool, ConvertError>(true)
        }),
{
}

} // verus!
