//! Voice-activity rechunker: turns a raw sample sequence into a sequence of
//! speech-segment buffers.
//!
//! The rechunker accumulates samples until it holds one detection frame
//! (30 ms worth), hands the frame to the voice-activity detection model, and
//! emits a segment whenever the model reports that a speech region ended.
//! When the source ends, whatever partial samples remain buffered are flushed
//! as one final segment. The detection model itself is an opaque outside
//! component: the methods here take the transitions it reported as arguments
//! and are verified for every value of them.

use vstd::prelude::*;
use vstd::arithmetic::div_mod::{
    lemma_fundamental_div_mod, lemma_fundamental_div_mod_converse, lemma_mod_bound,
};

verus! {

/// Positive speech threshold of the detection model, in thousandths.
pub const POSITIVE_SPEECH_THRESHOLD_PERMILLE: u32 = 400;

/// Negative speech threshold of the detection model, in thousandths.
pub const NEGATIVE_SPEECH_THRESHOLD_PERMILLE: u32 = 250;

/// Padding kept before a detected speech onset, in milliseconds.
pub const PRE_SPEECH_PAD_MS: u64 = 500;

/// Padding kept after a detected speech offset, in milliseconds.
pub const POST_SPEECH_PAD_MS: u64 = 100;

/// How long silence must persist before a speech segment is considered
/// ended, in milliseconds.
pub const REDEMPTION_TIME_MS: u64 = 500;

/// Segments shorter than this are discarded by the model itself, in
/// milliseconds.
pub const MIN_SPEECH_TIME_MS: u64 = 90;

/// The fixed parameters a detection-model session is created with. The
/// thresholds are carried in thousandths of the model's unit-range score;
/// the model itself consumes them at the I/O edge.
pub struct VadConfig {
    /// Sample rate of the session's audio.
    pub sample_rate: u32,
    /// Score threshold for entering speech, in thousandths.
    pub positive_speech_threshold_permille: u32,
    /// Score threshold for leaving speech, in thousandths.
    pub negative_speech_threshold_permille: u32,
    /// Padding kept before an onset, in milliseconds.
    pub pre_speech_pad_ms: u64,
    /// Padding kept after an offset, in milliseconds.
    pub post_speech_pad_ms: u64,
    /// Silence required before a segment ends, in milliseconds.
    pub redemption_time_ms: u64,
    /// Shortest segment the model reports, in milliseconds.
    pub min_speech_time_ms: u64,
}

impl VadConfig {
    /// The configuration every session uses, at the given sample rate.
    pub fn default_for(sample_rate: u32) -> (r: Self)
        ensures
            r.sample_rate == sample_rate,
            r.positive_speech_threshold_permille == POSITIVE_SPEECH_THRESHOLD_PERMILLE,
            r.negative_speech_threshold_permille == NEGATIVE_SPEECH_THRESHOLD_PERMILLE,
            r.pre_speech_pad_ms == PRE_SPEECH_PAD_MS,
            r.post_speech_pad_ms == POST_SPEECH_PAD_MS,
            r.redemption_time_ms == REDEMPTION_TIME_MS,
            r.min_speech_time_ms == MIN_SPEECH_TIME_MS,
    {
        VadConfig {
            sample_rate,
            positive_speech_threshold_permille: POSITIVE_SPEECH_THRESHOLD_PERMILLE,
            negative_speech_threshold_permille: NEGATIVE_SPEECH_THRESHOLD_PERMILLE,
            pre_speech_pad_ms: PRE_SPEECH_PAD_MS,
            post_speech_pad_ms: POST_SPEECH_PAD_MS,
            redemption_time_ms: REDEMPTION_TIME_MS,
            min_speech_time_ms: MIN_SPEECH_TIME_MS,
        }
    }
}

/// One emitted chunk of audio: a completed speech segment, or the final
/// flush of unclassified samples at end-of-stream.
pub struct SegmentBuffer {
    /// Number of interleaved channels; always 1 here.
    pub channels: u32,
    /// Sample rate the samples were captured at.
    pub sample_rate: u32,
    /// The segment's samples, in order.
    pub samples: Vec<i16>,
}

/// An event the detection model reports while processing one frame.
#[derive(Clone)]
pub enum VadTransition {
    /// Speech onset was detected at the given stream offset.
    SpeechStart {
        /// Offset of the onset, in milliseconds from the start of the stream.
        timestamp_ms: u64,
    },
    /// A speech region ended; carries the region's samples, padding included.
    SpeechEnd {
        /// Offset where the region started, in milliseconds.
        start_timestamp_ms: u64,
        /// Offset where the region ended, in milliseconds.
        end_timestamp_ms: u64,
        /// The accumulated samples of the region.
        samples: Vec<i16>,
    },
}

/// The samples carried by the first `SpeechEnd` among the transitions of one
/// frame, if any.
pub open spec fn first_speech_end(ts: Seq<VadTransition>) -> Option<Seq<i16>>
    decreases ts.len(),
{
    if ts.len() == 0 {
        None
    } else {
        match ts[0] {
            VadTransition::SpeechEnd { samples, .. } => Some(samples@),
            _ => first_speech_end(ts.skip(1)),
        }
    }
}

/// Whether every speech end among a frame's transitions carries samples.
/// The detection model discards segments shorter than its minimum speech
/// time, so an empty payload never arrives from it.
pub open spec fn speech_ends_nonempty(ts: Seq<VadTransition>) -> bool {
    forall|j: int|
        0 <= j < ts.len() ==> ((#[trigger] ts[j]) matches VadTransition::SpeechEnd {
            samples,
            ..
        } ==> samples@.len() > 0)
}

/// Scanning starts at the first transition: while no `SpeechEnd` has been
/// seen, the answer over the remaining suffix is the answer over the whole.
proof fn lemma_first_speech_end_skip(ts: Seq<VadTransition>, i: int)
    requires
        0 <= i <= ts.len(),
        forall|j: int| 0 <= j < i ==> !((#[trigger] ts[j]) is SpeechEnd),
    ensures
        first_speech_end(ts) == first_speech_end(ts.skip(i)),
    decreases i,
{
    if i > 0 {
        assert(ts.skip(1).skip(i - 1) =~= ts.skip(i));
        lemma_first_speech_end_skip(ts.skip(1), i - 1);
    } else {
        assert(ts.skip(0) =~= ts);
    }
}

/// Copy a sample vector.
fn copy_samples(v: &Vec<i16>) -> (r: Vec<i16>)
    ensures
        r@ == v@,
{
    let mut r: Vec<i16> = Vec::new();
    let mut i: usize = 0;
    while i < v.len()
        invariant
            i <= v@.len(),
            r@ == v@.take(i as int),
        decreases v@.len() - i,
    {
        r.push(v[i]);
        assert(v@.take(i + 1 as int) =~= v@.take(i as int).push(v@[i as int]));
        i += 1;
    }
    assert(v@.take(v@.len() as int) =~= v@);
    r
}

/// The stateful rechunker: an accumulation buffer, the frame size computed
/// once from the source's sample rate, and an exhaustion mark.
pub struct VoiceActivityRechunker {
    /// Samples pulled from the source but not yet submitted to the model.
    pub buffer: Vec<i16>,
    /// Samples per detection frame: 30 ms at `sample_rate`.
    pub chunk_size: usize,
    /// Sample rate of the source, stamped on every emitted segment.
    pub sample_rate: u32,
    /// Set once the source has ended or the model failed: no further output.
    pub finished: bool,
}

impl VoiceActivityRechunker {
    /// A fresh rechunker for a source at the given sample rate, with an
    /// empty accumulation buffer and a 30 ms frame size.
    pub fn new(sample_rate: u32) -> (r: Self)
        ensures
            r.buffer@ == Seq::<i16>::empty(),
            r.chunk_size == crate::spec_frame_size(sample_rate),
            r.sample_rate == sample_rate,
            !r.finished,
    {
        VoiceActivityRechunker {
            buffer: Vec::new(),
            chunk_size: crate::frame_size_for(sample_rate),
            sample_rate,
            finished: false,
        }
    }

    /// Append samples pulled from the source to the accumulation buffer.
    pub fn push_samples(&mut self, samples: &Vec<i16>)
        ensures
            final(self).buffer@ == old(self).buffer@ + samples@,
            final(self).chunk_size == old(self).chunk_size,
            final(self).sample_rate == old(self).sample_rate,
            final(self).finished == old(self).finished,
    {
        let mut i: usize = 0;
        while i < samples.len()
            invariant
                i <= samples@.len(),
                self.buffer@ == old(self).buffer@ + samples@.take(i as int),
                self.chunk_size == old(self).chunk_size,
                self.sample_rate == old(self).sample_rate,
                self.finished == old(self).finished,
            decreases samples@.len() - i,
        {
            self.buffer.push(samples[i]);
            assert(old(self).buffer@ + samples@.take(i + 1 as int) =~= (old(self).buffer@
                + samples@.take(i as int)).push(samples@[i as int]));
            i += 1;
        }
        assert(old(self).buffer@ + samples@.take(samples@.len() as int) =~= old(self).buffer@
            + samples@);
    }

    /// Whether the buffer holds at least one full detection frame.
    pub fn has_full_frame(&self) -> (r: bool)
        ensures
            r == (self.buffer@.len() >= self.chunk_size),
    {
        self.buffer.len() >= self.chunk_size
    }

    /// Remove exactly one frame's worth of samples from the front of the
    /// buffer, in FIFO order, to be submitted to the detection model.
    pub fn take_frame(&mut self) -> (frame: Vec<i16>)
        requires
            old(self).buffer@.len() >= old(self).chunk_size,
        ensures
            frame@ == old(self).buffer@.take(old(self).chunk_size as int),
            final(self).buffer@ == old(self).buffer@.skip(old(self).chunk_size as int),
            final(self).chunk_size == old(self).chunk_size,
            final(self).sample_rate == old(self).sample_rate,
            final(self).finished == old(self).finished,
    {
        let cs = self.chunk_size;
        let mut frame: Vec<i16> = Vec::new();
        let mut i: usize = 0;
        while i < cs
            invariant
                *self == *old(self),
                cs == self.chunk_size,
                self.buffer@.len() >= cs,
                i <= cs,
                frame@ == self.buffer@.take(i as int),
            decreases cs - i,
        {
            frame.push(self.buffer[i]);
            assert(self.buffer@.take(i + 1 as int) =~= self.buffer@.take(i as int).push(
                self.buffer@[i as int],
            ));
            i += 1;
        }
        let len = self.buffer.len();
        let mut rest: Vec<i16> = Vec::new();
        let mut j: usize = cs;
        while j < len
            invariant
                *self == *old(self),
                cs == self.chunk_size,
                len == self.buffer@.len(),
                cs <= j <= len,
                rest@ == self.buffer@.subrange(cs as int, j as int),
            decreases len - j,
        {
            rest.push(self.buffer[j]);
            assert(self.buffer@.subrange(cs as int, j + 1 as int) =~= self.buffer@.subrange(
                cs as int,
                j as int,
            ).push(self.buffer@[j as int]));
            j += 1;
        }
        assert(rest@ =~= self.buffer@.skip(cs as int));
        self.buffer = rest;
        frame
    }

    /// The source has ended: emit the residual buffered samples as one final
    /// segment — or nothing, if none are buffered — and mark the rechunker
    /// exhausted.
    pub fn flush(&mut self) -> (r: Option<SegmentBuffer>)
        ensures
            final(self).finished,
            final(self).buffer@ == Seq::<i16>::empty(),
            final(self).chunk_size == old(self).chunk_size,
            final(self).sample_rate == old(self).sample_rate,
            old(self).buffer@.len() == 0 ==> r is None,
            old(self).buffer@.len() > 0 ==> (r matches Some(seg) && seg.samples@ == old(
                self,
            ).buffer@ && seg.channels == 1 && seg.sample_rate == old(self).sample_rate),
    {
        self.finished = true;
        if self.buffer.len() == 0 {
            None
        } else {
            let data = copy_samples(&self.buffer);
            self.buffer = Vec::new();
            Some(SegmentBuffer { channels: 1, sample_rate: self.sample_rate, samples: data })
        }
    }

    /// The detection model failed on a frame: fail closed, ending the output
    /// sequence without emitting anything further.
    pub fn on_model_error(&mut self)
        ensures
            final(self).finished,
            final(self).buffer@ == old(self).buffer@,
            final(self).chunk_size == old(self).chunk_size,
            final(self).sample_rate == old(self).sample_rate,
    {
        self.finished = true;
    }

    /// Scan one frame's transitions in order: the first `SpeechEnd` found
    /// yields its carried samples as a segment; later transitions of the
    /// same frame are left for the model's persistent state to resurface.
    /// Segments are never empty: the model discards segments shorter than
    /// its minimum speech time, so every reported speech end carries
    /// samples.
    pub fn segment_from_transitions(&self, transitions: &Vec<VadTransition>) -> (r: Option<
        SegmentBuffer,
    >)
        requires
            speech_ends_nonempty(transitions@),
        ensures
            (match first_speech_end(transitions@) {
                Some(p) => r matches Some(seg) && seg.samples@ == p && seg.channels == 1
                    && seg.sample_rate == self.sample_rate,
                None => r is None,
            }),
            r matches Some(seg) ==> seg.samples@.len() > 0,
    {
        let n = transitions.len();
        let mut i: usize = 0;
        while i < n
            invariant
                n == transitions@.len(),
                i <= n,
                speech_ends_nonempty(transitions@),
                forall|j: int| 0 <= j < i ==> !((#[trigger] transitions@[j]) is SpeechEnd),
            decreases n - i,
        {
            match &transitions[i] {
                VadTransition::SpeechEnd { samples, .. } => {
                    let data = copy_samples(samples);
                    proof {
                        lemma_first_speech_end_skip(transitions@, i as int);
                        assert(transitions@.skip(i as int)[0] == transitions@[i as int]);
                        assert((transitions@[i as int] matches VadTransition::SpeechEnd {
                            samples: p,
                            ..
                        } ==> p@.len() > 0));
                    }
                    return Some(
                        SegmentBuffer {
                            channels: 1,
                            sample_rate: self.sample_rate,
                            samples: data,
                        },
                    );
                },
                _ => {},
            }
            i += 1;
        }
        proof {
            lemma_first_speech_end_skip(transitions@, n as int);
        }
        None
    }
}

/// While frames remain (the frame index is below the frame count), a full
/// frame fits past the already-consumed prefix.
proof fn lemma_frames_fit(len: int, fs: int, i: int)
    requires
        fs > 0,
        len >= 0,
        0 <= i,
        i + 1 <= len / fs,
    ensures
        0 <= i * fs,
        i * fs + fs <= len,
        (i + 1) * fs == i * fs + fs,
{
    lemma_fundamental_div_mod(len, fs);
    lemma_mod_bound(len, fs);
    let q = len / fs;
    let r = len % fs;
    assert(0 <= i * fs && i * fs + fs <= len && (i + 1) * fs == i * fs + fs) by (nonlinear_arith)
        requires
            fs > 0,
            0 <= i,
            i + 1 <= q,
            len == fs * q + r,
            r >= 0,
    ;
}

/// After all full frames are consumed, what is left is the division
/// remainder: fewer samples than one frame.
proof fn lemma_residual_small(len: int, fs: int)
    requires
        fs > 0,
        len >= 0,
    ensures
        len - (len / fs) * fs == len % fs,
        0 <= len % fs < fs,
{
    lemma_fundamental_div_mod(len, fs);
    lemma_mod_bound(len, fs);
    let q = len / fs;
    let r = len % fs;
    assert(len - q * fs == r) by (nonlinear_arith)
        requires
            len == fs * q + r,
    ;
}

/// Consuming one full frame lowers the frame count by one and keeps the
/// remainder.
proof fn lemma_drop_one_frame(len: int, fs: int)
    requires
        fs > 0,
        len / fs >= 1,
        len >= 0,
    ensures
        len >= fs,
        (len - fs) / fs == len / fs - 1,
        (len - fs) % fs == len % fs,
        len % fs <= len - fs,
{
    lemma_fundamental_div_mod(len, fs);
    lemma_mod_bound(len, fs);
    let q = len / fs;
    let r = len % fs;
    assert(len >= fs && len - fs == (q - 1) * fs + r && r <= len - fs) by (nonlinear_arith)
        requires
            fs > 0,
            q >= 1,
            0 <= r,
            len == fs * q + r,
    ;
    lemma_fundamental_div_mod_converse(len - fs, fs, q - 1, r);
}

/// Views of the per-frame transition lists.
pub open spec fn transition_views(rs: Seq<Vec<VadTransition>>) -> Seq<Seq<VadTransition>> {
    rs.map_values(|v: Vec<VadTransition>| v@)
}

/// The sample payloads of a sequence of segments.
pub open spec fn segment_views(segs: Seq<SegmentBuffer>) -> Seq<Seq<i16>> {
    segs.map_values(|s: SegmentBuffer| s.samples@)
}

/// What rechunking a finished sample sequence emits, frame by frame: each
/// full frame contributes the first speech segment its transitions carry (if
/// any), and the samples left over after the last full frame are flushed as
/// one final segment.
pub open spec fn rechunk_segments(
    samples: Seq<i16>,
    results: Seq<Seq<VadTransition>>,
    fs: int,
) -> Seq<Seq<i16>>
    decreases results.len(),
{
    if results.len() == 0 || samples.len() < fs {
        if samples.len() == 0 {
            Seq::<Seq<i16>>::empty()
        } else {
            seq![samples]
        }
    } else {
        match first_speech_end(results[0]) {
            Some(p) => seq![p] + rechunk_segments(samples.skip(fs), results.skip(1), fs),
            None => rechunk_segments(samples.skip(fs), results.skip(1), fs),
        }
    }
}

/// Rechunk a finished sample sequence, the detection model's transitions for
/// each full frame supplied alongside: the pull algorithm run to exhaustion.
pub fn rechunk_all(
    sample_rate: u32,
    samples: &Vec<i16>,
    frame_results: &Vec<Vec<VadTransition>>,
) -> (out: Vec<SegmentBuffer>)
    requires
        crate::spec_frame_size(sample_rate) > 0,
        frame_results@.len() == samples@.len() as int / crate::spec_frame_size(sample_rate),
        forall|i: int|
            0 <= i < frame_results@.len() ==> speech_ends_nonempty(
                (#[trigger] frame_results@[i])@,
            ),
    ensures
        segment_views(out@) == rechunk_segments(
            samples@,
            transition_views(frame_results@),
            crate::spec_frame_size(sample_rate),
        ),
        forall|i: int|
            0 <= i < out@.len() ==> (#[trigger] out@[i]).channels == 1 && out@[i].sample_rate
                == sample_rate && out@[i].samples@.len() > 0,
{
    let mut rc = VoiceActivityRechunker::new(sample_rate);
    let ghost fs: int = rc.chunk_size as int;
    let ghost tv: Seq<Seq<VadTransition>> = transition_views(frame_results@);
    rc.push_samples(samples);
    assert(rc.buffer@ =~= samples@);
    let mut out: Vec<SegmentBuffer> = Vec::new();
    let n = frame_results.len();
    let mut i: usize = 0;
    proof {
        assert(samples@.skip(0) =~= samples@);
        assert(tv.skip(0) =~= tv);
        assert(segment_views(out@) =~= Seq::<Seq<i16>>::empty());
        assert(Seq::<Seq<i16>>::empty() + rechunk_segments(samples@, tv, fs) =~= rechunk_segments(
            samples@,
            tv,
            fs,
        ));
    }
    while i < n
        invariant
            i <= n,
            fs == rc.chunk_size as int,
            fs > 0,
            rc.sample_rate == sample_rate,
            n == frame_results@.len(),
            tv == transition_views(frame_results@),
            n == samples@.len() as int / fs,
            rc.buffer@ == samples@.skip(i as int * fs),
            segment_views(out@) + rechunk_segments(rc.buffer@, tv.skip(i as int), fs)
                == rechunk_segments(samples@, tv, fs),
            forall|k: int|
                0 <= k < out@.len() ==> (#[trigger] out@[k]).channels == 1 && out@[k].sample_rate
                    == sample_rate && out@[k].samples@.len() > 0,
            forall|k: int|
                0 <= k < frame_results@.len() ==> speech_ends_nonempty(
                    (#[trigger] frame_results@[k])@,
                ),
        decreases n - i,
    {
        proof {
            lemma_frames_fit(samples@.len() as int, fs, i as int);
            assert(rc.buffer@.len() == samples@.len() as int - i as int * fs);
            assert(speech_ends_nonempty(frame_results@[i as int]@));
        }
        let ghost pre_buf: Seq<i16> = rc.buffer@;
        let ghost pre_out: Seq<SegmentBuffer> = out@;
        let frame = rc.take_frame();
        let seg_opt = rc.segment_from_transitions(&frame_results[i]);
        proof {
            lemma_frames_fit(samples@.len() as int, fs, i as int);
            assert(pre_buf.skip(fs) =~= samples@.skip((i as int + 1) * fs));
            assert(tv.skip(i as int).skip(1) =~= tv.skip(i as int + 1));
            assert(tv.skip(i as int)[0] == frame_results@[i as int]@);
            assert(tv.skip(i as int).len() > 0);
            assert(pre_buf.len() >= fs);
        }
        match seg_opt {
            Some(seg) => {
                out.push(seg);
                proof {
                    assert(segment_views(out@) =~= segment_views(pre_out).push(seg.samples@));
                    assert(segment_views(pre_out).push(seg.samples@) =~= segment_views(pre_out)
                        + seq![seg.samples@]);
                    assert(segment_views(pre_out) + (seq![seg.samples@] + rechunk_segments(
                        rc.buffer@,
                        tv.skip(i as int + 1),
                        fs,
                    )) =~= (segment_views(pre_out) + seq![seg.samples@]) + rechunk_segments(
                        rc.buffer@,
                        tv.skip(i as int + 1),
                        fs,
                    ));
                }
            },
            None => {},
        }
        i += 1;
    }
    proof {
        lemma_residual_small(samples@.len() as int, fs);
        assert(rc.buffer@.len() < fs);
        assert(tv.skip(n as int).len() == 0);
    }
    let ghost pre_out: Seq<SegmentBuffer> = out@;
    let ghost pre_buf: Seq<i16> = rc.buffer@;
    let tail = rc.flush();
    match tail {
        Some(seg) => {
            out.push(seg);
            proof {
                assert(segment_views(out@) =~= segment_views(pre_out).push(seg.samples@));
                assert(segment_views(pre_out).push(seg.samples@) =~= segment_views(pre_out)
                    + seq![pre_buf]);
            }
        },
        None => {
            proof {
                assert(segment_views(out@) + Seq::<Seq<i16>>::empty() =~= segment_views(out@));
            }
        },
    }
    out
}

/// A sample sequence shorter than one frame yields at most one segment: the
/// end-of-stream flush, holding exactly the input samples (and no segment at
/// all when there are no samples).
pub proof fn lemma_short_input_flushes(
    samples: Seq<i16>,
    results: Seq<Seq<VadTransition>>,
    fs: int,
)
    requires
        fs > 0,
        samples.len() < fs,
    ensures
        samples.len() == 0 ==> rechunk_segments(samples, results, fs) == Seq::<Seq<i16>>::empty(),
        samples.len() > 0 ==> rechunk_segments(samples, results, fs) == seq![samples],
{
    if samples.len() == 0 {
        assert(rechunk_segments(samples, results, fs) =~= Seq::<Seq<i16>>::empty());
    } else {
        assert(rechunk_segments(samples, results, fs) =~= seq![samples]);
    }
}

/// When no frame's transitions carry a speech end, rechunking emits no
/// segment except the final flush of the samples left over after the last
/// full frame — and nothing at all when none are left over.
pub proof fn lemma_no_speech_only_flush(
    samples: Seq<i16>,
    results: Seq<Seq<VadTransition>>,
    fs: int,
)
    requires
        fs > 0,
        results.len() == samples.len() as int / fs,
        forall|i: int| 0 <= i < results.len() ==> first_speech_end(#[trigger] results[i]) is None,
    ensures
        samples.len() as int % fs == 0 ==> rechunk_segments(samples, results, fs) == Seq::<
            Seq<i16>,
        >::empty(),
        samples.len() as int % fs != 0 ==> rechunk_segments(samples, results, fs) == seq![
            samples.skip(samples.len() - (samples.len() as int % fs)),
        ],
    decreases results.len(),
{
    lemma_residual_small(samples.len() as int, fs);
    if results.len() == 0 {
        if samples.len() as int % fs != 0 {
            assert(samples.skip(samples.len() - (samples.len() as int % fs)) =~= samples);
        }
    } else {
        lemma_drop_one_frame(samples.len() as int, fs);
        assert(first_speech_end(results[0]) is None);
        let rest = samples.skip(fs);
        lemma_no_speech_only_flush(rest, results.skip(1), fs);
        if samples.len() as int % fs != 0 {
            let r = samples.len() as int % fs;
            assert(rest.skip(rest.len() - r) =~= samples.skip(samples.len() - r)) by {
                assert forall|j: int| 0 <= j < r implies #[trigger] rest.skip(rest.len() - r)[j]
                    == samples.skip(samples.len() - r)[j] by {
                    assert(rest.skip(rest.len() - r)[j] == rest[j + (rest.len() - r)]);
                    assert(rest[j + (rest.len() - r)] == samples[j + (rest.len() - r) + fs]);
                }
            }
        }
    }
}

/// When exactly one frame's transitions carry a speech end, over an input of
/// whole frames, rechunking emits exactly that one segment and nothing else:
/// no residual flush follows.
pub proof fn lemma_single_speech_region(
    samples: Seq<i16>,
    results: Seq<Seq<VadTransition>>,
    fs: int,
    k: int,
)
    requires
        fs > 0,
        results.len() == samples.len() as int / fs,
        samples.len() as int % fs == 0,
        0 <= k < results.len(),
        first_speech_end(results[k]) is Some,
        forall|i: int|
            0 <= i < results.len() && i != k ==> first_speech_end(#[trigger] results[i]) is None,
    ensures
        rechunk_segments(samples, results, fs) == seq![first_speech_end(results[k]).unwrap()],
    decreases k,
{
    lemma_drop_one_frame(samples.len() as int, fs);
    let rest = samples.skip(fs);
    if k == 0 {
        assert forall|i: int| 0 <= i < results.skip(1).len() implies first_speech_end(
            #[trigger] results.skip(1)[i],
        ) is None by {
            assert(results.skip(1)[i] == results[i + 1]);
        }
        lemma_no_speech_only_flush(rest, results.skip(1), fs);
        assert(rechunk_segments(samples, results, fs) =~= seq![
            first_speech_end(results[0]).unwrap(),
        ]);
    } else {
        assert(first_speech_end(results[0]) is None);
        assert(results.skip(1)[k - 1] == results[k]);
        assert forall|i: int| 0 <= i < results.skip(1).len() && i != k - 1 implies first_speech_end(
            #[trigger] results.skip(1)[i],
        ) is None by {
            assert(results.skip(1)[i] == results[i + 1]);
        }
        lemma_single_speech_region(rest, results.skip(1), fs, k - 1);
    }
}

} // verus!
