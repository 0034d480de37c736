//! The state of one stream's conversion: the frame that is being assembled
//! from converted access units, and the guard on the timestamps of the frames
//! that leave.
use vstd::prelude::*;
use crate::bytes::push_bytes;
use crate::codec::{profile_of, CodecId, CodecType};
use crate::convert::{annex_b, convert_to_annex_b};
use crate::error::ConvertError;
use crate::params::{in_band, parsed_sets, valid_for, ParameterSets, ParameterSetsView};

verus! {

/// The media time between two progress ticks, in nanoseconds.
pub const PROGRESS_INTERVAL_NS: u64 = 1_000_000_000;

/// One coded packet as the demuxer delivers it: the length-prefixed payload,
/// the presentation and decode timestamps in units of the stream's time base,
/// and whether the packet starts a key frame.
#[derive(Debug, Clone, PartialEq, Eq)]
pub struct AccessUnit {
    pub data: Vec<u8>,
    pub pts: Option<i64>,
    pub dts: Option<i64>,
    pub key: bool,
}

/// The presentation timestamp from which the time of a frame is computed:
/// it must be there, and it must not be negative.
pub open spec fn presentation_time_of(pts: Option<i64>) -> Result<i64, ConvertError> {
    match pts {
        None => Err(ConvertError::MissingPts),
        Some(pts) => if pts < 0 {
            Err(ConvertError::NegativePts { pts })
        } else {
            Ok(pts)
        },
    }
}

impl AccessUnit {
    /// The presentation timestamp of the access unit for the computation of
    /// its frame's time. A missing or negative one is refused, not taken for
    /// zero.
    pub fn presentation_time(&self) -> (r: Result<i64, ConvertError>)
        ensures
            r == presentation_time_of(self.pts),
            r is Ok ==> r->Ok_0 >= 0,
    {
        match self.pts {
            None => Err(ConvertError::MissingPts),
            Some(pts) => {
                if pts < 0 {
                    Err(ConvertError::NegativePts { pts })
                } else {
                    Ok(pts)
                }
            },
        }
    }
}

/// Splits a time in nanoseconds into whole seconds and the nanoseconds
/// that are left over.
pub fn split_seconds(timestamp_ns: u64) -> (r: (i64, i32))
    ensures
        r.0 == timestamp_ns as int / 1_000_000_000,
        r.1 == timestamp_ns as int % 1_000_000_000,
        r.0 * 1_000_000_000 + r.1 == timestamp_ns,
        0 <= r.1 < 1_000_000_000,
{
    let seconds: u64 = timestamp_ns / 1_000_000_000;
    let nanos: u64 = timestamp_ns % 1_000_000_000;
    (seconds as i64, nanos as i32)
}

/// The conversion state of one stream.
pub struct VideoConverter {
    codec_type: CodecType,
    parameter_sets: ParameterSets,
    time_base_num: i32,
    time_base_den: i32,
    frame_packets: Vec<Vec<u8>>,
    last_timestamp: Option<u64>,
    last_progress: u64,
    first_packet: bool,
}

/// What a `VideoConverter` holds.
pub struct ConverterState {
    /// The profile of the stream.
    pub codec: CodecType,
    /// The parameter sets of the stream.
    pub parameter_sets: ParameterSetsView,
    /// Numerator and denominator of the stream's time base.
    pub time_base: (i32, i32),
    /// The contributions to the frame that is being assembled, one for each
    /// access unit, oldest first.
    pub pending: Seq<Seq<u8>>,
    /// The timestamp of the last frame that left; `None` while none has.
    pub last_timestamp: Option<u64>,
    /// The timestamp of the last progress tick.
    pub last_progress: u64,
    /// No access unit has contributed to a frame yet.
    pub first_packet: bool,
}

/// The state in which the conversion of a stream starts.
pub open spec fn initial_state(
    codec: CodecType,
    parameter_sets: ParameterSetsView,
    time_base: (i32, i32),
) -> ConverterState {
    ConverterState {
        codec,
        parameter_sets,
        time_base,
        pending: Seq::empty(),
        last_timestamp: None,
        last_progress: 0,
        first_packet: true,
    }
}

/// The profile and the parameter sets with which a stream opens, or why it
/// cannot be converted.
pub open spec fn opening(
    id: CodecId,
    extradata: Option<Seq<u8>>,
) -> Result<(CodecType, ParameterSetsView), ConvertError> {
    match profile_of(id) {
        None => Err(ConvertError::UnsupportedCodec(id)),
        Some(codec) => match extradata {
            None => Err(ConvertError::MissingExtradata),
            Some(record) => match parsed_sets(record, codec) {
                Ok(sets) => Ok((codec, sets)),
                Err(e) => Err(e),
            },
        },
    }
}

/// Frames leave in the order in which their access units arrive, so a
/// presentation timestamp that differs from the decode timestamp cannot be
/// served.
pub open spec fn reordering_check(
    pts: i64,
    dts: i64,
    codec: CodecType,
) -> Result<(), ConvertError> {
    if pts != dts {
        Err(ConvertError::Reordered { pts, dts, codec })
    } else {
        Ok(())
    }
}

/// Whether an access unit may contribute to a frame. One without a payload
/// contributes nothing and is let through; any other needs both timestamps,
/// and they must agree.
pub open spec fn admission(codec: CodecType, packet: AccessUnit) -> Result<(), ConvertError> {
    if packet.data@.len() == 0 {
        Ok(())
    } else {
        match (packet.pts, packet.dts) {
            (None, _) => Err(ConvertError::MissingPts),
            (Some(_), None) => Err(ConvertError::MissingDts),
            (Some(pts), Some(dts)) => reordering_check(pts, dts, codec),
        }
    }
}

/// What an access unit adds to the frame, `converted` being its payload in
/// start-code-delimited layout: that payload, behind the parameter sets where
/// the access unit is the first of the stream or starts a key frame.
pub open spec fn contribution(
    state: ConverterState,
    packet: AccessUnit,
    converted: Seq<u8>,
) -> Seq<u8> {
    (if state.first_packet || packet.key {
        in_band(state.parameter_sets, state.codec)
    } else {
        Seq::empty()
    }) + converted
}

/// The state after an access unit was handed in together with its converted
/// payload.
pub open spec fn after_converted(
    state: ConverterState,
    packet: AccessUnit,
    converted: Seq<u8>,
) -> ConverterState {
    if packet.data@.len() == 0 || admission(state.codec, packet) is Err {
        state
    } else {
        ConverterState {
            pending: state.pending.push(contribution(state, packet, converted)),
            first_packet: false,
            ..state
        }
    }
}

/// The state after an access unit was handed in, its payload converted as
/// `annex_b` says.
pub open spec fn after_packet(state: ConverterState, packet: AccessUnit) -> ConverterState {
    after_converted(state, packet, annex_b(packet.data@, state.codec))
}

/// The parts, one behind the other.
pub open spec fn joined(parts: Seq<Seq<u8>>) -> Seq<u8>
    decreases parts.len(),
{
    if parts.len() == 0 {
        Seq::empty()
    } else {
        joined(parts.drop_last()) + parts.last()
    }
}

/// A frame with this timestamp may leave, `last` being the timestamp of the
/// frame that left before it: no frame has left yet, or this one lies
/// strictly later.
pub open spec fn advances(last: Option<u64>, timestamp_ns: u64) -> bool {
    match last {
        None => true,
        Some(last) => timestamp_ns > last,
    }
}

/// The timestamp of the last frame once frames with these timestamps have
/// left, `last` being that of the frame before them.
pub open spec fn last_of(last: Option<u64>, stamps: Seq<u64>) -> Option<u64> {
    if stamps.len() == 0 {
        last
    } else {
        Some(stamps.last())
    }
}

/// Frames with these timestamps, asking to leave one after the other, all
/// may, `last` being the timestamp of the frame that left before them.
pub open spec fn all_leave(last: Option<u64>, stamps: Seq<u64>) -> bool
    decreases stamps.len(),
{
    stamps.len() == 0 || (all_leave(last, stamps.drop_last()) && advances(
        last_of(last, stamps.drop_last()),
        stamps.last(),
    ))
}

/// A frame with this timestamp is due a progress tick, the last tick having
/// been at `last_tick`.
pub open spec fn tick_due(last_tick: u64, timestamp_ns: u64) -> bool {
    timestamp_ns >= last_tick + PROGRESS_INTERVAL_NS
}

impl View for VideoConverter {
    type V = ConverterState;

    closed spec fn view(&self) -> ConverterState {
        ConverterState {
            codec: self.codec_type,
            parameter_sets: self.parameter_sets@,
            time_base: (self.time_base_num, self.time_base_den),
            pending: Seq::new(self.frame_packets@.len(), |i: int| self.frame_packets@[i]@),
            last_timestamp: self.last_timestamp,
            last_progress: self.last_progress,
            first_packet: self.first_packet,
        }
    }
}

/// The bytes of a configuration record, if the stream has one.
pub open spec fn record_of(extradata: Option<&[u8]>) -> Option<Seq<u8>> {
    match extradata {
        Some(record) => Some(record@),
        None => None,
    }
}

/// A stream opened as it should: in the initial state with the profile and
/// the parameter sets that were expected, or with the error that was.
pub open spec fn opens_as(
    r: Result<VideoConverter, ConvertError>,
    expected: Result<(CodecType, ParameterSetsView), ConvertError>,
    time_base: (i32, i32),
) -> bool {
    match expected {
        Ok((codec, sets)) => r is Ok && r->Ok_0.wf() && r->Ok_0@ == initial_state(
            codec,
            sets,
            time_base,
        ),
        Err(e) => r == Err::<VideoConverter, ConvertError>(e),
    }
}

impl VideoConverter {
    /// The parameter sets are complete for the stream's profile.
    pub open spec fn wf(&self) -> bool {
        valid_for(self@.parameter_sets, self@.codec)
    }

    /// Opens the conversion of a stream from what its container says of it:
    /// the codec identifier, the codec configuration record if there is one,
    /// and the time base.
    pub fn new(
        codec_id: CodecId,
        extradata: Option<&[u8]>,
        time_base_num: i32,
        time_base_den: i32,
    ) -> (r: Result<VideoConverter, ConvertError>)
        ensures
            opens_as(
                r,
                opening(codec_id, record_of(extradata)),
                (time_base_num, time_base_den),
            ),
    {
        let codec_type = match CodecType::from_ffmpeg_id(codec_id) {
            Ok(codec) => codec,
            Err(e) => {
                return Err(e);
            },
        };
        let record = match extradata {
            Some(record) => record,
            None => {
                return Err(ConvertError::MissingExtradata);
            },
        };
        let parameter_sets = match ParameterSets::parse(record, codec_type) {
            Ok(sets) => sets,
            Err(e) => {
                return Err(e);
            },
        };
        let converter = VideoConverter {
            codec_type,
            parameter_sets,
            time_base_num,
            time_base_den,
            frame_packets: Vec::new(),
            last_timestamp: None,
            last_progress: 0,
            first_packet: true,
        };
        assert(converter@.pending =~= Seq::<Seq<u8>>::empty());
        Ok(converter)
    }

    /// Refuses a presentation timestamp that differs from the decode
    /// timestamp, with both values and the stream's profile.
    pub fn require_no_reordering(&self, pts: i64, dts: i64) -> (r: Result<(), ConvertError>)
        ensures
            r == reordering_check(pts, dts, self@.codec),
            r is Err <==> pts != dts,
    {
        if pts != dts {
            return Err(ConvertError::Reordered { pts, dts, codec: self.codec_type });
        }
        Ok(())
    }

    /// Takes one access unit into the frame that is being assembled, its
    /// payload converted here. An access unit whose presentation and decode
    /// timestamps differ is refused, and leaves the state as it was.
    pub fn process_packet(&mut self, packet: &AccessUnit) -> (r: Result<(), ConvertError>)
        ensures
            r == admission(old(self)@.codec, *packet),
            final(self)@ == after_packet(old(self)@, *packet),
            final(self).wf() == old(self).wf(),
    {
        if packet.data.len() == 0 {
            return Ok(());
        }
        let converted = convert_to_annex_b(packet.data.as_slice(), self.codec_type);
        self.process_converted(packet, converted.as_slice())
    }

    /// Takes one access unit into the frame that is being assembled, its
    /// payload converted by the caller's backend. An access unit without a
    /// payload changes nothing; one that is refused leaves the state as it
    /// was.
    pub fn process_converted(
        &mut self,
        packet: &AccessUnit,
        converted: &[u8],
    ) -> (r: Result<(), ConvertError>)
        ensures
            r == admission(old(self)@.codec, *packet),
            final(self)@ == after_converted(old(self)@, *packet, converted@),
            final(self).wf() == old(self).wf(),
    {
        if packet.data.len() == 0 {
            return Ok(());
        }
        let pts = match packet.pts {
            Some(pts) => pts,
            None => {
                return Err(ConvertError::MissingPts);
            },
        };
        let dts = match packet.dts {
            Some(dts) => dts,
            None => {
                return Err(ConvertError::MissingDts);
            },
        };
        match self.require_no_reordering(pts, dts) {
            Ok(()) => {},
            Err(e) => {
                return Err(e);
            },
        }
        let mut frame_data: Vec<u8> = Vec::new();
        if self.first_packet || packet.key {
            self.parameter_sets.write_to(self.codec_type, &mut frame_data);
        }
        push_bytes(&mut frame_data, converted);
        assert(frame_data@ =~= contribution(old(self)@, *packet, converted@));
        self.frame_packets.push(frame_data);
        self.first_packet = false;
        assert(self@.pending =~= old(self)@.pending.push(
            contribution(old(self)@, *packet, converted@),
        ));
        Ok(())
    }

    /// Lets a frame with this timestamp leave if it lies after the frame
    /// before it; the first frame of a stream always may.
    pub fn check_timestamp(&mut self, timestamp_ns: u64) -> (r: Result<(), ConvertError>)
        ensures
            advances(old(self)@.last_timestamp, timestamp_ns) ==> r == Ok::<(), ConvertError>(())
                && final(self)@ == (ConverterState {
                last_timestamp: Some(timestamp_ns),
                ..old(self)@
            }),
            !advances(old(self)@.last_timestamp, timestamp_ns) ==> r == Err::<(), ConvertError>(
                ConvertError::NonMonotonicTimestamp {
                    current: timestamp_ns,
                    last: old(self)@.last_timestamp->Some_0,
                },
            ) && final(self)@ == old(self)@,
            final(self).wf() == old(self).wf(),
    {
        match self.last_timestamp {
            Some(last) => {
                if timestamp_ns <= last {
                    return Err(ConvertError::NonMonotonicTimestamp { current: timestamp_ns, last });
                }
            },
            None => {},
        }
        self.last_timestamp = Some(timestamp_ns);
        Ok(())
    }

    /// Says whether a frame with this timestamp is due a progress tick, and
    /// if so takes it as the last tick.
    pub fn update_progress(&mut self, timestamp_ns: u64) -> (tick: bool)
        ensures
            tick == tick_due(old(self)@.last_progress, timestamp_ns),
            tick ==> final(self)@ == (ConverterState {
                last_progress: timestamp_ns,
                ..old(self)@
            }),
            !tick ==> final(self)@ == old(self)@,
            final(self).wf() == old(self).wf(),
    {
        if timestamp_ns >= self.last_progress && timestamp_ns - self.last_progress
            >= PROGRESS_INTERVAL_NS {
            self.last_progress = timestamp_ns;
            true
        } else {
            false
        }
    }

    /// Hands out the frame assembled so far, its contributions one behind
    /// the other, and starts the next frame with nothing.
    pub fn take_frame_data(&mut self) -> (frame: Vec<u8>)
        ensures
            frame@ == joined(old(self)@.pending),
            final(self)@ == (ConverterState { pending: Seq::empty(), ..old(self)@ }),
            old(self)@.pending.len() == 0 ==> frame@.len() == 0 && final(self)@ == old(self)@,
            final(self).wf() == old(self).wf(),
    {
        let mut frame_data: Vec<u8> = Vec::new();
        let mut i: usize = 0;
        while i < self.frame_packets.len()
            invariant
                *self == *old(self),
                i <= self.frame_packets@.len(),
                frame_data@ == joined(self@.pending.take(i as int)),
            decreases self.frame_packets@.len() - i,
        {
            let ghost parts = self@.pending;
            assert(parts.take(i + 1).drop_last() =~= parts.take(i as int));
            assert(parts.take(i + 1).last() == parts[i as int]);
            push_bytes(&mut frame_data, self.frame_packets[i].as_slice());
            i = i + 1;
        }
        assert(self@.pending.take(i as int) =~= self@.pending);
        self.frame_packets.clear();
        assert(self@.pending =~= Seq::<Seq<u8>>::empty());
        assert(old(self)@.pending.len() == 0 ==> old(self)@.pending =~= Seq::<Seq<u8>>::empty());
        frame_data
    }

    /// The format tag of the stream's profile.
    pub fn format_str(&self) -> (s: &'static str)
        ensures
            s@ == self@.codec.format_tag(),
    {
        self.codec_type.format_str()
    }

    /// The profile of the stream.
    pub fn codec_type(&self) -> (codec: CodecType)
        ensures
            codec == self@.codec,
    {
        self.codec_type
    }

    /// Numerator and denominator of the stream's time base.
    pub fn time_base(&self) -> (r: (i32, i32))
        ensures
            r == self@.time_base,
    {
        (self.time_base_num, self.time_base_den)
    }
}

/// An access unit with a payload whose presentation and decode timestamps
/// differ is refused as reordered, and adds nothing to the frame: the state
/// stays as it was.
pub proof fn lemma_reordered_unit_is_refused(state: ConverterState, packet: AccessUnit)
    requires
        packet.data@.len() > 0,
        packet.pts is Some,
        packet.dts is Some,
        packet.pts != packet.dts,
    ensures
        admission(state.codec, packet) == Err::<(), ConvertError>(
            ConvertError::Reordered {
                pts: packet.pts->Some_0,
                dts: packet.dts->Some_0,
                codec: state.codec,
            },
        ),
        after_packet(state, packet) == state,
        forall|converted: Seq<u8>| after_converted(state, packet, converted) == state,
{
}

/// The first frame of a stream may leave whatever its timestamp is.
pub proof fn lemma_first_timestamp_leaves(timestamp_ns: u64)
    ensures
        advances(None, timestamp_ns),
        all_leave(None, seq![timestamp_ns]),
{
    let one = seq![timestamp_ns];
    assert(one.drop_last() =~= Seq::<u64>::empty());
    reveal_with_fuel(all_leave, 2);
}

/// After a frame has left, the next one may leave if and only if its
/// timestamp lies strictly above that frame's, whatever that timestamp is.
pub proof fn lemma_next_must_lie_above(last: u64, timestamp_ns: u64)
    ensures
        advances(Some(last), timestamp_ns) <==> timestamp_ns > last,
        !advances(Some(u64::MAX), timestamp_ns),
{
}

/// Once a frame was refused, no longer run of frames ends well.
pub proof fn lemma_refusal_stays(last: Option<u64>, stamps: Seq<u64>, n: int)
    requires
        0 <= n <= stamps.len(),
        !all_leave(last, stamps.take(n)),
    ensures
        !all_leave(last, stamps),
    decreases stamps.len() - n,
{
    if n == stamps.len() {
        assert(stamps.take(n) =~= stamps);
    } else {
        assert(stamps.take(n + 1).drop_last() =~= stamps.take(n));
        lemma_refusal_stays(last, stamps, n + 1);
    }
}

/// Timestamps must rise: where the timestamp at `i` is not above the one
/// before it, the frame at `i` is refused, and with it the run.
pub proof fn lemma_step_back_is_refused(last: Option<u64>, stamps: Seq<u64>, i: int)
    requires
        0 < i < stamps.len(),
        stamps[i] <= stamps[i - 1],
    ensures
        last_of(last, stamps.take(i)) == Some(stamps[i - 1]),
        !advances(last_of(last, stamps.take(i)), stamps[i]),
        !all_leave(last, stamps.take(i + 1)),
        !all_leave(last, stamps),
{
    let before = stamps.take(i);
    assert(stamps.take(i + 1).drop_last() =~= before);
    assert(before.last() == stamps[i - 1]);
    assert(stamps.take(i + 1).last() == stamps[i]);
    lemma_refusal_stays(last, stamps, i + 1);
}

/// The frames of a stream all leave if and only if their timestamps rise
/// strictly from each to the next; the first is held against nothing.
pub proof fn lemma_all_leave_iff_rising(stamps: Seq<u64>)
    ensures
        all_leave(None, stamps) <==> (forall|i: int|
            0 < i < stamps.len() ==> stamps[i - 1] < #[trigger] stamps[i]),
    decreases stamps.len(),
{
    if stamps.len() > 0 {
        let before = stamps.drop_last();
        lemma_all_leave_iff_rising(before);
        let n = stamps.len() - 1;
        assert(forall|i: int| 0 <= i < n ==> before[i] == stamps[i]);
        if n > 0 {
            assert(before.last() == stamps[n - 1]);
        }
        if all_leave(None, stamps) {
            assert forall|i: int| 0 < i < stamps.len() implies stamps[i - 1] < #[trigger] stamps[i] by {
                if i < n {
                    assert(before[i - 1] < before[i]);
                }
            }
        }
        if forall|i: int| 0 < i < stamps.len() ==> stamps[i - 1] < #[trigger] stamps[i] {
            assert forall|i: int| 0 < i < before.len() implies before[i - 1] < #[trigger] before[i] by {
                assert(stamps[i - 1] < stamps[i]);
            }
            if n > 0 {
                assert(stamps[n - 1] < stamps[n]);
            }
        }
    }
}

/// With nothing taken in, the frame that is handed out is empty.
pub proof fn lemma_nothing_pending_gives_empty_frame()
    ensures
        joined(Seq::<Seq<u8>>::empty()) == Seq::<u8>::empty(),
{
}

} // verus!
