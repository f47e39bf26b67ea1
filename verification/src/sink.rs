//! Format-specific sinks for one recording session.
//!
//! A sink is bound to exactly one output artifact. The streaming
//! variants (WAV, raw PCM) accumulate encoded bytes frame by frame;
//! the FLAC variant accumulates integer samples and encodes them once,
//! at finalize time. Finalizing consumes the sink, so a finalized sink
//! can never be written again; the artifact is handed back as bytes for
//! the caller to persist.

use vstd::prelude::*;

use crate::flac::{encode_flac, flac_encodable, flac_encoding, FlacError};
use crate::sample::{sample_to_i32, sample_to_i32_val};
use crate::settings::{AppSettings, AudioFormat};
use crate::wav::{
    build_wav_header, bytes_per_sample, frame_encoding, lemma_frame_encoding_len,
    lemma_frame_encoding_push, push_sample, valid_bits, wav_header,
};

verus! {

/// Most data bytes a WAV container can account for in its header.
pub const MAX_WAV_DATA_BYTES: u64 = 0xFFFF_FFFF - 36;

/// A whole WAV file: header over the final data length, then the data.
pub open spec fn wav_file_bytes(
    channels: int,
    sample_rate: int,
    bits: int,
    samples: Seq<i64>,
) -> Seq<u8> {
    wav_header(channels, sample_rate, bits, samples.len() * bytes_per_sample(bits))
        + frame_encoding(samples, bits)
}

/// The 32-bit integer samples the FLAC accumulator holds for a sequence
/// of fixed-point samples.
pub open spec fn flac_samples(samples: Seq<i64>) -> Seq<i32> {
    Seq::new(samples.len(), |i: int| sample_to_i32_val(samples[i] as int) as i32)
}

/// Round trip of a finished 16-bit WAV file: past the 44-byte header,
/// the data region decodes back to exactly one integer sample per
/// written sample — its saturated 16-bit conversion.
pub proof fn lemma_wav_file_roundtrip(
    channels: int,
    sample_rate: int,
    samples: Seq<i64>,
)
    ensures
        wav_file_bytes(channels, sample_rate, 16, samples).skip(44) == frame_encoding(samples, 16),
        crate::wav::decoded_samples_16(wav_file_bytes(channels, sample_rate, 16, samples).skip(44))
            == Seq::new(samples.len(), |i: int| crate::sample::sample_to_i16_val(samples[i] as int)),
{
    crate::wav::lemma_wav_header_len(channels, sample_rate, 16, samples.len() as int * 2);
    crate::wav::lemma_wav_data_roundtrip(samples);
    assert(wav_file_bytes(channels, sample_rate, 16, samples).skip(44) =~= frame_encoding(
        samples,
        16,
    ));
}

/// Streaming WAV sink: encoded sample bytes, with the header written
/// around them at finalize time.
pub struct WaveSink {
    channels: u16,
    sample_rate: u32,
    bits_per_sample: u16,
    data: Vec<u8>,
    written: Ghost<Seq<i64>>,
}

impl WaveSink {
    /// The fixed-point samples accepted so far.
    pub closed spec fn samples(&self) -> Seq<i64> {
        self.written@
    }

    /// Channel count the header will declare.
    pub closed spec fn chans(&self) -> u16 {
        self.channels
    }

    /// Sample rate the header will declare.
    pub closed spec fn rate(&self) -> u32 {
        self.sample_rate
    }

    /// Container sample width in bits.
    pub closed spec fn bits(&self) -> u16 {
        self.bits_per_sample
    }

    /// The sink's invariant: parameters the container's 16-bit
    /// block-align and 32-bit byte-rate header fields can carry, and a
    /// byte buffer that is exactly the encoding of the accepted
    /// samples, small enough for the header's 32-bit data length.
    pub closed spec fn wf(&self) -> bool {
        &&& valid_bits(self.bits_per_sample as int)
        &&& 1 <= self.channels
        &&& self.channels * bytes_per_sample(self.bits_per_sample as int) <= 0xFFFF
        &&& self.sample_rate * (self.channels * bytes_per_sample(self.bits_per_sample as int))
            <= 0xFFFF_FFFF
        &&& self.data@ == frame_encoding(self.written@, self.bits_per_sample as int)
        &&& self.written@.len() * bytes_per_sample(self.bits_per_sample as int)
            <= MAX_WAV_DATA_BYTES
    }

    /// Open a WAV sink for one session. The bounds on the channel
    /// count and sample rate are the container's: block align must fit
    /// its 16-bit field and the byte rate its 32-bit field.
    pub fn open(settings: &AppSettings, channels: u16) -> (s: WaveSink)
        requires
            settings.wf(),
            1 <= channels,
            channels * bytes_per_sample(settings.bit_depth as int) <= 0xFFFF,
            settings.sample_rate * (channels * bytes_per_sample(settings.bit_depth as int))
                <= 0xFFFF_FFFF,
        ensures
            s.wf(),
            s.samples() == Seq::<i64>::empty(),
            s.chans() == channels,
            s.rate() == settings.sample_rate,
            s.bits() == settings.bit_depth,
    {
        let s = WaveSink {
            channels,
            sample_rate: settings.sample_rate,
            bits_per_sample: settings.bit_depth,
            data: Vec::new(),
            written: Ghost(Seq::empty()),
        };
        proof {
            assert(s.data@ =~= frame_encoding(s.written@, s.bits_per_sample as int));
        }
        s
    }

    /// Append the encoding of one processed frame.
    pub fn write(&mut self, frame: &Vec<i64>)
        requires
            old(self).wf(),
            (old(self).samples().len() + frame@.len()) * bytes_per_sample(
                old(self).bits() as int,
            ) <= MAX_WAV_DATA_BYTES,
        ensures
            final(self).wf(),
            final(self).samples() == old(self).samples() + frame@,
            final(self).chans() == old(self).chans(),
            final(self).rate() == old(self).rate(),
            final(self).bits() == old(self).bits(),
    {
        let ghost orig = self.written@;
        let bits = self.bits_per_sample;
        let mut j: usize = 0;
        while j < frame.len()
            invariant
                j <= frame@.len(),
                self.channels == old(self).channels,
                self.sample_rate == old(self).sample_rate,
                self.bits_per_sample == old(self).bits_per_sample,
                self.bits_per_sample == bits,
                valid_bits(bits as int),
                self.written@ == orig + frame@.take(j as int),
                self.data@ == frame_encoding(self.written@, bits as int),
            decreases frame@.len() - j,
        {
            push_sample(&mut self.data, frame[j], bits);
            proof {
                lemma_frame_encoding_push(orig + frame@.take(j as int), frame@[j as int],
                    bits as int);
                assert((orig + frame@.take(j as int)).push(frame@[j as int]) =~= orig + frame@.take(
                    j as int + 1,
                ));
            }
            self.written = Ghost(self.written@.push(frame@[j as int]));
            j += 1;
        }
        proof {
            assert(orig + frame@.take(frame@.len() as int) =~= orig + frame@);
            assert((orig + frame@).len() * bytes_per_sample(bits as int) <= MAX_WAV_DATA_BYTES);
        }
    }

    /// Whether `extra` more samples still fit under the header's
    /// 32-bit data length.
    pub fn has_room(&self, extra: usize) -> (r: bool)
        requires
            self.wf(),
        ensures
            r == ((self.samples().len() + extra) * bytes_per_sample(self.bits() as int)
                <= MAX_WAV_DATA_BYTES),
    {
        proof {
            lemma_frame_encoding_len(self.written@, self.bits_per_sample as int);
        }
        let bps: u64 = (self.bits_per_sample / 8) as u64;
        let cur: u64 = self.data.len() as u64;
        if extra as u64 > MAX_WAV_DATA_BYTES {
            proof {
                assert((self.samples().len() + extra) * bytes_per_sample(self.bits() as int)
                    > MAX_WAV_DATA_BYTES) by (nonlinear_arith)
                    requires
                        extra > MAX_WAV_DATA_BYTES,
                        self.samples().len() >= 0,
                        bytes_per_sample(self.bits() as int) >= 1,
                ;
            }
            false
        } else {
            proof {
                assert((extra as u64) * bps <= 4 * MAX_WAV_DATA_BYTES) by (nonlinear_arith)
                    requires
                        extra as u64 <= MAX_WAV_DATA_BYTES,
                        bps <= 4,
                ;
            }
            let total: u64 = cur + (extra as u64) * bps;
            proof {
                assert((self.samples().len() + extra) * bytes_per_sample(self.bits() as int)
                    == self.samples().len() * bytes_per_sample(self.bits() as int) + extra
                    * bytes_per_sample(self.bits() as int)) by (nonlinear_arith);
            }
            total <= MAX_WAV_DATA_BYTES
        }
    }

    /// Close the container: the header, with the final data length,
    /// followed by the data.
    pub fn finalize(self) -> (r: Vec<u8>)
        requires
            self.wf(),
        ensures
            r@ == wav_file_bytes(
                self.chans() as int,
                self.rate() as int,
                self.bits() as int,
                self.samples(),
            ),
    {
        proof {
            lemma_frame_encoding_len(self.written@, self.bits_per_sample as int);
        }
        let WaveSink { channels, sample_rate, bits_per_sample, data, written } = self;
        let mut out = build_wav_header(channels, sample_rate, bits_per_sample, data.len() as u32);
        let mut d = data;
        out.append(&mut d);
        out
    }
}

/// Raw PCM sink: headerless little-endian 16-bit samples, complete at
/// every moment, so finalizing adds nothing.
pub struct PcmSink {
    data: Vec<u8>,
    written: Ghost<Seq<i64>>,
}

impl PcmSink {
    /// The fixed-point samples accepted so far.
    pub closed spec fn samples(&self) -> Seq<i64> {
        self.written@
    }

    /// The byte buffer is exactly the 16-bit encoding of the accepted
    /// samples.
    pub closed spec fn wf(&self) -> bool {
        self.data@ == frame_encoding(self.written@, 16)
    }

    /// Open a PCM sink for one session.
    pub fn open() -> (s: PcmSink)
        ensures
            s.wf(),
            s.samples() == Seq::<i64>::empty(),
    {
        let s = PcmSink { data: Vec::new(), written: Ghost(Seq::empty()) };
        proof {
            assert(s.data@ =~= frame_encoding(s.written@, 16));
        }
        s
    }

    /// Append the encoding of one processed frame.
    pub fn write(&mut self, frame: &Vec<i64>)
        requires
            old(self).wf(),
        ensures
            final(self).wf(),
            final(self).samples() == old(self).samples() + frame@,
    {
        let ghost orig = self.written@;
        let mut j: usize = 0;
        while j < frame.len()
            invariant
                j <= frame@.len(),
                self.written@ == orig + frame@.take(j as int),
                self.data@ == frame_encoding(self.written@, 16),
            decreases frame@.len() - j,
        {
            push_sample(&mut self.data, frame[j], 16);
            proof {
                lemma_frame_encoding_push(orig + frame@.take(j as int), frame@[j as int], 16);
                assert((orig + frame@.take(j as int)).push(frame@[j as int]) =~= orig + frame@.take(
                    j as int + 1,
                ));
            }
            self.written = Ghost(self.written@.push(frame@[j as int]));
            j += 1;
        }
        proof {
            assert(orig + frame@.take(frame@.len() as int) =~= orig + frame@);
        }
    }

    /// Hand back the byte stream; a no-op for this format.
    pub fn finalize(self) -> (r: Vec<u8>)
        requires
            self.wf(),
        ensures
            r@ == frame_encoding(self.samples(), 16),
    {
        let PcmSink { data, written } = self;
        data
    }
}

/// Buffer-then-encode FLAC sink: 32-bit integer samples accumulated in
/// memory, encoded in one step at finalize time.
///
/// Deliberately, the conversion scales by the 32-bit maximum whatever
/// bit depth the encoder is later told, while the encoder takes at most
/// 24 bits: at 16 or 24 bits only a near-silent session is encodable,
/// and a 32-bit session never is — the fault is reported at finalize.
/// Saturating the conversion to the declared depth instead would make
/// every session encodable but change the stored values; that is a
/// question for the configuration's owner, not silently settled here.
pub struct FlacSink {
    ints: Vec<i32>,
    bits_per_sample: u16,
    sample_rate: u32,
    written: Ghost<Seq<i64>>,
}

impl FlacSink {
    /// The fixed-point samples accepted so far.
    pub closed spec fn samples(&self) -> Seq<i64> {
        self.written@
    }

    /// Bit depth the encoder will be told.
    pub closed spec fn bits(&self) -> u16 {
        self.bits_per_sample
    }

    /// Sample rate the encoder will be told.
    pub closed spec fn rate(&self) -> u32 {
        self.sample_rate
    }

    /// The accumulator holds exactly the 32-bit conversions of the
    /// accepted samples.
    pub closed spec fn wf(&self) -> bool {
        &&& valid_bits(self.bits_per_sample as int)
        &&& self.ints@.len() == self.written@.len()
        &&& forall|i: int|
            0 <= i < self.written@.len() ==> self.ints@[i] as int == sample_to_i32_val(
                #[trigger] self.written@[i] as int,
            )
    }

    /// Open a FLAC sink for one session.
    pub fn open(settings: &AppSettings) -> (s: FlacSink)
        requires
            settings.wf(),
        ensures
            s.wf(),
            s.samples() == Seq::<i64>::empty(),
            s.bits() == settings.bit_depth,
            s.rate() == settings.sample_rate,
    {
        FlacSink {
            ints: Vec::new(),
            bits_per_sample: settings.bit_depth,
            sample_rate: settings.sample_rate,
            written: Ghost(Seq::empty()),
        }
    }

    /// Accumulate the 32-bit conversions of one processed frame; no
    /// encoding happens yet.
    pub fn write(&mut self, frame: &Vec<i64>)
        requires
            old(self).wf(),
        ensures
            final(self).wf(),
            final(self).samples() == old(self).samples() + frame@,
            final(self).bits() == old(self).bits(),
            final(self).rate() == old(self).rate(),
    {
        let ghost orig = self.written@;
        let mut j: usize = 0;
        while j < frame.len()
            invariant
                j <= frame@.len(),
                self.bits_per_sample == old(self).bits_per_sample,
                self.sample_rate == old(self).sample_rate,
                valid_bits(self.bits_per_sample as int),
                self.written@ == orig + frame@.take(j as int),
                self.ints@.len() == self.written@.len(),
                forall|i: int|
                    0 <= i < self.written@.len() ==> self.ints@[i] as int == sample_to_i32_val(
                        #[trigger] self.written@[i] as int,
                    ),
            decreases frame@.len() - j,
        {
            let v = sample_to_i32(frame[j]);
            self.ints.push(v);
            proof {
                assert((orig + frame@.take(j as int)).push(frame@[j as int]) =~= orig + frame@.take(
                    j as int + 1,
                ));
            }
            self.written = Ghost(self.written@.push(frame@[j as int]));
            j += 1;
        }
        proof {
            assert(orig + frame@.take(frame@.len() as int) =~= orig + frame@);
        }
    }

    /// Encode the whole accumulated buffer as one mono FLAC stream. An
    /// empty accumulator yields no artifact; an encodable buffer always
    /// encodes; any other failure is reported and leaves nothing
    /// half-written.
    pub fn finalize(self) -> (r: Result<Option<Vec<u8>>, FlacError>)
        requires
            self.wf(),
        ensures
            self.samples().len() == 0 ==> r == Ok::<Option<Vec<u8>>, FlacError>(None),
            flac_encodable(
                flac_samples(self.samples()),
                self.bits() as int,
                self.rate() as int,
            ) ==> r is Ok,
            match r {
                Ok(Some(b)) => self.samples().len() > 0 && b@ == flac_encoding(
                    flac_samples(self.samples()),
                    self.bits() as int,
                    self.rate() as int,
                ),
                Ok(None) => self.samples().len() == 0,
                Err(e) => self.samples().len() > 0 && e == FlacError::EncodeFailed,
            },
    {
        if self.ints.len() == 0 {
            Ok(None)
        } else {
            proof {
                assert(self.ints@ =~= flac_samples(self.written@));
            }
            match encode_flac(&self.ints, self.bits_per_sample, self.sample_rate) {
                Ok(b) => Ok(Some(b)),
                Err(e) => Err(e),
            }
        }
    }
}

/// The sink of one recording session, tagged by format.
pub enum SampleSink {
    Wave(WaveSink),
    Pcm(PcmSink),
    Flac(FlacSink),
}

impl SampleSink {
    /// The format this sink persists.
    pub open spec fn format(&self) -> AudioFormat {
        match self {
            SampleSink::Wave(_) => AudioFormat::Wave,
            SampleSink::Pcm(_) => AudioFormat::Pcm,
            SampleSink::Flac(_) => AudioFormat::Flac,
        }
    }

    /// The fixed-point samples accepted so far.
    pub open spec fn samples(&self) -> Seq<i64> {
        match self {
            SampleSink::Wave(w) => w.samples(),
            SampleSink::Pcm(p) => p.samples(),
            SampleSink::Flac(f) => f.samples(),
        }
    }

    /// The variant's own invariant.
    pub open spec fn wf(&self) -> bool {
        match self {
            SampleSink::Wave(w) => w.wf(),
            SampleSink::Pcm(p) => p.wf(),
            SampleSink::Flac(f) => f.wf(),
        }
    }

    /// Whether `n` more samples still fit the container's bookkeeping.
    pub open spec fn write_room(&self, n: int) -> bool {
        match self {
            SampleSink::Wave(w) => (w.samples().len() + n) * bytes_per_sample(w.bits() as int)
                <= MAX_WAV_DATA_BYTES,
            SampleSink::Pcm(_) => true,
            SampleSink::Flac(_) => true,
        }
    }

    /// The bytes a successful finalize hands back: the complete WAV
    /// file, the raw PCM stream, the encoded FLAC stream — or nothing,
    /// for a FLAC session that saw no samples.
    pub open spec fn artifact(&self) -> Option<Seq<u8>> {
        match self {
            SampleSink::Wave(w) => Some(
                wav_file_bytes(w.chans() as int, w.rate() as int, w.bits() as int, w.samples()),
            ),
            SampleSink::Pcm(p) => Some(frame_encoding(p.samples(), 16)),
            SampleSink::Flac(f) => if f.samples().len() == 0 {
                None
            } else {
                Some(flac_encoding(flac_samples(f.samples()), f.bits() as int, f.rate() as int))
            },
        }
    }

    /// Only a FLAC encode can fail; the streaming formats always
    /// finalize.
    pub open spec fn can_fail(&self) -> bool {
        self is Flac && self.samples().len() > 0
    }

    /// When finalizing is bound to succeed: always, except for a FLAC
    /// session whose accumulated buffer the encoder may reject.
    pub open spec fn finalize_succeeds(&self) -> bool {
        match self {
            SampleSink::Flac(f) => f.samples().len() == 0 || flac_encodable(
                flac_samples(f.samples()),
                f.bits() as int,
                f.rate() as int,
            ),
            _ => true,
        }
    }

    /// Open the sink the configured format calls for. For the WAV
    /// container the channel count and sample rate must fit its header
    /// fields; the other formats carry no such bound.
    pub fn open(settings: &AppSettings, channels: u16) -> (s: SampleSink)
        requires
            settings.wf(),
            settings.audio_format == AudioFormat::Wave ==> {
                &&& 1 <= channels
                &&& channels * bytes_per_sample(settings.bit_depth as int) <= 0xFFFF
                &&& settings.sample_rate * (channels * bytes_per_sample(
                    settings.bit_depth as int,
                )) <= 0xFFFF_FFFF
            },
        ensures
            s.wf(),
            s.format() == settings.audio_format,
            s.samples() == Seq::<i64>::empty(),
    {
        match settings.audio_format {
            AudioFormat::Wave => SampleSink::Wave(WaveSink::open(settings, channels)),
            AudioFormat::Pcm => SampleSink::Pcm(PcmSink::open()),
            AudioFormat::Flac => SampleSink::Flac(FlacSink::open(settings)),
        }
    }

    /// Whether `extra` more samples still fit the container's
    /// bookkeeping; the streaming-PCM and FLAC variants have no such
    /// bound.
    pub fn has_room(&self, extra: usize) -> (r: bool)
        requires
            self.wf(),
        ensures
            r == self.write_room(extra as int),
    {
        match self {
            SampleSink::Wave(w) => w.has_room(extra),
            SampleSink::Pcm(_) => true,
            SampleSink::Flac(_) => true,
        }
    }

    /// Append one processed frame.
    pub fn write(&mut self, frame: &Vec<i64>)
        requires
            old(self).wf(),
            old(self).write_room(frame@.len() as int),
        ensures
            final(self).wf(),
            final(self).samples() == old(self).samples() + frame@,
            final(self).format() == old(self).format(),
            final(self).artifact_params_match(*old(self)),
    {
        match self {
            SampleSink::Wave(w) => w.write(frame),
            SampleSink::Pcm(p) => p.write(frame),
            SampleSink::Flac(f) => f.write(frame),
        }
    }

    /// Append one processed frame when it still fits, and say whether
    /// it was written: the drop-the-frame-when-full decision of a
    /// caller that cannot state `write`'s bound itself.
    pub fn write_if_room(&mut self, frame: &Vec<i64>) -> (wrote: bool)
        requires
            old(self).wf(),
        ensures
            final(self).wf(),
            wrote == old(self).write_room(frame@.len() as int),
            wrote ==> {
                &&& final(self).samples() == old(self).samples() + frame@
                &&& final(self).format() == old(self).format()
                &&& final(self).artifact_params_match(*old(self))
            },
            !wrote ==> *final(self) == *old(self),
    {
        if self.has_room(frame.len()) {
            self.write(frame);
            true
        } else {
            false
        }
    }

    /// The format parameters a finalize will use are the same in both
    /// sinks (they never change after open).
    pub open spec fn artifact_params_match(&self, other: SampleSink) -> bool {
        match (self, other) {
            (SampleSink::Wave(a), SampleSink::Wave(b)) => a.chans() == b.chans() && a.rate()
                == b.rate() && a.bits() == b.bits(),
            (SampleSink::Pcm(_), SampleSink::Pcm(_)) => true,
            (SampleSink::Flac(a), SampleSink::Flac(b)) => a.bits() == b.bits() && a.rate()
                == b.rate(),
            _ => false,
        }
    }

    /// Finalize the session exactly once: the sink is consumed, and the
    /// complete artifact (if the session produced one) comes back as
    /// bytes for the caller to persist.
    pub fn finalize(self) -> (r: Result<Option<Vec<u8>>, FlacError>)
        requires
            self.wf(),
        ensures
            match r {
                Ok(Some(b)) => self.artifact() == Some(b@),
                Ok(None) => self.artifact() is None,
                Err(e) => self.can_fail() && e == FlacError::EncodeFailed,
            },
            self.finalize_succeeds() ==> r is Ok,
    {
        match self {
            SampleSink::Wave(w) => Ok(Some(w.finalize())),
            SampleSink::Pcm(p) => Ok(Some(p.finalize())),
            SampleSink::Flac(f) => f.finalize(),
        }
    }
}

} // verus!
