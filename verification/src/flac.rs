//! FLAC encoding of an accumulated sample buffer.
//!
//! The encoder itself is the `flacenc` crate, run single-threaded with
//! its floating-point analysis switched off so that the bytes are an
//! integer-arithmetic function of the inputs; this module gives that
//! output a name, states on which buffers it is bound to succeed, and
//! maps its failures to the library's error type.

use vstd::prelude::*;

use vstd::arithmetic::power2::pow2;

verus! {

/// The FLAC byte stream the encoder produces for a mono buffer of
/// samples at a given bit depth and sample rate: `flacenc` run
/// single-threaded, with the default configuration except that its
/// floating-point subframe analysis is off, so the bytes are the same
/// on every machine.
pub uninterp spec fn flac_encoding(samples: Seq<i32>, bits_per_sample: int, sample_rate: int) -> Seq<u8>;

/// A sample value representable at the given depth: within the signed
/// range of `bits` bits.
pub open spec fn fits_depth(v: int, bits: int) -> bool {
    -(pow2((bits - 1) as nat) as int) <= v < pow2((bits - 1) as nat) as int
}

/// A buffer the encoder is bound to accept: one of the depths this
/// library configures that the FLAC stream header can carry, a sample
/// rate the header can carry, a buffer short enough for the frame
/// numbering, and every sample representable at the declared depth.
pub open spec fn flac_encodable(samples: Seq<i32>, bits_per_sample: int, sample_rate: int) -> bool {
    &&& bits_per_sample == 16 || bits_per_sample == 24
    &&& 1 <= sample_rate <= 96_000
    &&& samples.len() <= 0xFFFF_FFFF
    &&& forall|i: int| 0 <= i < samples.len() ==> fits_depth(#[trigger] samples[i] as int, bits_per_sample)
}

/// Why encoding a sample buffer can fail.
#[derive(Clone, Copy, PartialEq, Eq, Structural, Debug)]
pub enum FlacError {
    EncodeFailed,
}

/// Relies on flacenc 0.5: `config::Encoder::default()`, adjusted as
/// below and checked through `error::Verify::into_verified`, is a fixed
/// valid encoder configuration; `source::MemSource::from_samples` wraps
/// the buffer as a mono source; `encode_with_fixed_block_size` encodes
/// it; `component::BitRepr::write` serializes the stream into a
/// `bitsink::ByteSink` whose `into_inner` is the finished file.
/// Three adjustments to the default configuration are needed for the
/// contract. Multithread mode is off: the crate's parallel workers
/// panic on a per-frame encode failure instead of reporting it, while
/// the single-threaded path hands every failure back as the error this
/// body maps to `None`. Quantized LPC is off and fixed-predictor orders
/// are chosen by exact bit counting: the default analysis runs through
/// platform-dependent floating point (an LPC window and an entropy
/// estimate), while the remaining subframe coders are pure integer
/// arithmetic, which makes the bytes a machine-independent function of
/// the samples, the bit depth and the sample rate. The width bound is
/// owed to the crate validating the depth only after truncating it to
/// eight bits and then asserting on the untruncated value: a wider
/// width can pass validation and abort. Within the bound, the fallible
/// steps are exactly the crate's own validation — the stream header's
/// bounds on depth and sample rate, the frame-number bound, and each
/// sample lying within the declared depth — so an encodable buffer
/// always comes back `Some`.
#[verifier::external_body]
fn flac_encode_bytes(samples: &Vec<i32>, bits_per_sample: u16, sample_rate: u32) -> (r: Option<
    Vec<u8>,
>)
    requires
        crate::wav::valid_bits(bits_per_sample as int),
    ensures
        r matches Some(b) ==> b@ == flac_encoding(
            samples@,
            bits_per_sample as int,
            sample_rate as int,
        ),
        flac_encodable(samples@, bits_per_sample as int, sample_rate as int) ==> r is Some,
{
    let mut encoder = flacenc::config::Encoder::default();
    encoder.multithread = false;
    encoder.subframe_coding.use_lpc = false;
    encoder.subframe_coding.fixed.order_sel = flacenc::config::OrderSel::BitCount;
    let config = flacenc::error::Verify::into_verified(encoder).ok()?;
    let (bits, rate) = (bits_per_sample as usize, sample_rate as usize);
    let source = flacenc::source::MemSource::from_samples(samples, 1, bits, rate);
    let stream = flacenc::encode_with_fixed_block_size(&config, source, config.block_size).ok()?;
    let mut sink = flacenc::bitsink::ByteSink::new();
    flacenc::component::BitRepr::write(&stream, &mut sink).ok()?;
    Some(sink.into_inner())
}

/// Encode a mono buffer of integer samples as one FLAC stream. An
/// encodable buffer — a depth of 16 or 24 bits, a sample rate up to
/// 96 kHz, every sample within the declared depth — always encodes.
/// Anything the encoder rejects is reported as a failure, and so is any
/// width other than the three the library configures: the encoder's
/// behaviour is relied on only for those.
pub fn encode_flac(samples: &Vec<i32>, bits_per_sample: u16, sample_rate: u32) -> (r: Result<
    Vec<u8>,
    FlacError,
>)
    ensures
        r matches Ok(b) ==> b@ == flac_encoding(
            samples@,
            bits_per_sample as int,
            sample_rate as int,
        ),
        flac_encodable(samples@, bits_per_sample as int, sample_rate as int) ==> r is Ok,
        r matches Err(e) ==> e == FlacError::EncodeFailed,
{
    if !(bits_per_sample == 16 || bits_per_sample == 24 || bits_per_sample == 32) {
        return Err(FlacError::EncodeFailed);
    }
    match flac_encode_bytes(samples, bits_per_sample, sample_rate) {
        Some(b) => Ok(b),
        None => Err(FlacError::EncodeFailed),
    }
}

} // verus!
