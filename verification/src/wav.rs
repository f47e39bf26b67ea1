//! Byte-level encoding of the WAV container.
//!
//! A finished file is a 44-byte canonical PCM header followed by the
//! sample data. Samples are stored little-endian in two's complement,
//! two, three or four bytes wide; whatever the container width, the
//! stored value is the 16-bit conversion of the fixed-point sample,
//! sign-extended.

use vstd::prelude::*;

use crate::sample::sample_to_i16_val;

verus! {

/// `n` little-endian base-256 digits of a non-negative value.
pub open spec fn le_bytes(v: int, n: nat) -> Seq<u8>
    decreases n,
{
    if n == 0 {
        Seq::<u8>::empty()
    } else {
        seq![(v % 256) as u8] + le_bytes(v / 256, (n - 1) as nat)
    }
}

/// Two's-complement encoding of `v` modulo `m`.
pub open spec fn twos_complement(v: int, m: int) -> int {
    if v >= 0 {
        v
    } else {
        v + m
    }
}

/// Container width in bytes for a sample of `bits` bits.
pub open spec fn bytes_per_sample(bits: int) -> int {
    bits / 8
}

/// A valid container sample width: 16, 24 or 32 bits.
pub open spec fn valid_bits(bits: int) -> bool {
    bits == 16 || bits == 24 || bits == 32
}

/// The stored bytes of one sample: its 16-bit conversion,
/// sign-extended to the container width, little-endian.
pub open spec fn sample_encoding(s: int, bits: int) -> Seq<u8> {
    let v = sample_to_i16_val(s);
    if bits == 16 {
        le_bytes(twos_complement(v, 0x1_0000), 2)
    } else if bits == 24 {
        le_bytes(twos_complement(v, 0x100_0000), 3)
    } else {
        le_bytes(twos_complement(v, 0x1_0000_0000), 4)
    }
}

/// The stored bytes of a whole frame, sample after sample.
pub open spec fn frame_encoding(frame: Seq<i64>, bits: int) -> Seq<u8>
    decreases frame.len(),
{
    if frame.len() == 0 {
        Seq::<u8>::empty()
    } else {
        frame_encoding(frame.drop_last(), bits) + sample_encoding(frame.last() as int, bits)
    }
}

/// `le_bytes` yields exactly `n` bytes.
pub proof fn lemma_le_bytes_len(v: int, n: nat)
    ensures
        le_bytes(v, n).len() == n,
    decreases n,
{
    if n > 0 {
        lemma_le_bytes_len(v / 256, (n - 1) as nat);
    }
}

/// One sample's encoding takes exactly `bytes_per_sample(bits)` bytes.
pub proof fn lemma_sample_encoding_len(s: int, bits: int)
    requires
        valid_bits(bits),
    ensures
        sample_encoding(s, bits).len() == bytes_per_sample(bits),
{
    let v = sample_to_i16_val(s);
    lemma_le_bytes_len(twos_complement(v, 0x1_0000), 2);
    lemma_le_bytes_len(twos_complement(v, 0x100_0000), 3);
    lemma_le_bytes_len(twos_complement(v, 0x1_0000_0000), 4);
}

/// A frame's encoding takes exactly `bytes_per_sample(bits)` bytes per
/// sample.
pub proof fn lemma_frame_encoding_len(frame: Seq<i64>, bits: int)
    requires
        valid_bits(bits),
    ensures
        frame_encoding(frame, bits).len() == frame.len() * bytes_per_sample(bits),
    decreases frame.len(),
{
    if frame.len() == 0 {
        assert(0int * bytes_per_sample(bits) == 0) by (nonlinear_arith);
    } else {
        lemma_frame_encoding_len(frame.drop_last(), bits);
        lemma_sample_encoding_len(frame.last() as int, bits);
        assert(frame.len() * bytes_per_sample(bits) == (frame.len() - 1) * bytes_per_sample(bits)
            + bytes_per_sample(bits)) by (nonlinear_arith);
    }
}

/// Appending one sample to a frame appends its encoding.
pub proof fn lemma_frame_encoding_push(frame: Seq<i64>, s: i64, bits: int)
    ensures
        frame_encoding(frame.push(s), bits) == frame_encoding(frame, bits) + sample_encoding(
            s as int,
            bits,
        ),
{
    assert(frame.push(s).drop_last() =~= frame);
    assert(frame.push(s).last() == s);
}

/// The signed 16-bit value two little-endian bytes store.
pub open spec fn from_le16_signed(b0: u8, b1: u8) -> int {
    let u = b0 as int + 256 * (b1 as int);
    if u >= 32768 {
        u - 65536
    } else {
        u
    }
}

/// The samples a 16-bit-wide data region decodes to.
pub open spec fn decoded_samples_16(bytes: Seq<u8>) -> Seq<int> {
    Seq::new(bytes.len() / 2, |i: int| from_le16_signed(bytes[2 * i], bytes[2 * i + 1]))
}

/// The 16-bit conversion stays within the signed 16-bit range.
pub proof fn lemma_sample_to_i16_val_bounds(s: int)
    ensures
        -32768 <= sample_to_i16_val(s) <= 32767,
{
    let a = crate::sample::abs_of(s);
    vstd::arithmetic::div_mod::lemma_div_pos_is_pos(a * 32767, 1_000_000);
    vstd::arithmetic::mul::lemma_mul_nonnegative(a, 32767);
}

/// Encoding one sample at width 16 and decoding the two bytes gives
/// back exactly its 16-bit conversion.
pub proof fn lemma_sample_encoding_roundtrip(s: int)
    ensures
        sample_encoding(s, 16).len() == 2,
        from_le16_signed(sample_encoding(s, 16)[0], sample_encoding(s, 16)[1])
            == sample_to_i16_val(s),
{
    lemma_sample_to_i16_val_bounds(s);
    let v = sample_to_i16_val(s);
    let tc = twos_complement(v, 0x1_0000);
    reveal_with_fuel(le_bytes, 3);
    lemma_le_bytes_len(tc, 2);
    vstd::arithmetic::div_mod::lemma_fundamental_div_mod(tc, 256);
    vstd::arithmetic::div_mod::lemma_div_is_ordered(tc, 65535, 256);
    vstd::arithmetic::div_mod::lemma_div_pos_is_pos(tc, 256);
    assert((tc / 256) % 256 == tc / 256) by {
        vstd::arithmetic::div_mod::lemma_small_mod((tc / 256) as nat, 256);
    };
}

/// Writing a sequence of samples at width 16 and decoding the data
/// region back yields exactly one sample per written sample: its
/// saturated 16-bit conversion.
pub proof fn lemma_wav_data_roundtrip(frame: Seq<i64>)
    ensures
        decoded_samples_16(frame_encoding(frame, 16)) == Seq::new(
            frame.len(),
            |i: int| sample_to_i16_val(frame[i] as int),
        ),
    decreases frame.len(),
{
    lemma_frame_encoding_len(frame, 16);
    let n = frame.len() as int;
    let e = frame_encoding(frame, 16);
    vstd::arithmetic::div_mod::lemma_div_multiples_vanish(n, 2);
    assert(bytes_per_sample(16) == 2);
    assert(e.len() == 2 * n) by (nonlinear_arith)
        requires
            e.len() == n * bytes_per_sample(16),
            bytes_per_sample(16) == 2,
            n >= 0,
    ;
    assert(decoded_samples_16(e).len() == n);
    if n == 0 {
        assert(decoded_samples_16(e) =~= Seq::new(
            frame.len(),
            |i: int| sample_to_i16_val(frame[i] as int),
        ));
    } else {
        let prefix = frame.drop_last();
        let ep = frame_encoding(prefix, 16);
        let es = sample_encoding(frame.last() as int, 16);
        lemma_wav_data_roundtrip(prefix);
        lemma_frame_encoding_len(prefix, 16);
        lemma_sample_encoding_roundtrip(frame.last() as int);
        vstd::arithmetic::div_mod::lemma_div_multiples_vanish(n - 1, 2);
        assert forall|i: int| 0 <= i < n implies decoded_samples_16(e)[i] == sample_to_i16_val(
            frame[i] as int,
        ) by {
            if i < n - 1 {
                assert(e[2 * i] == ep[2 * i]);
                assert(e[2 * i + 1] == ep[2 * i + 1]);
                assert(decoded_samples_16(ep)[i] == sample_to_i16_val(prefix[i] as int));
                assert(prefix[i] == frame[i]);
            } else {
                assert(e[2 * i] == es[0]);
                assert(e[2 * i + 1] == es[1]);
            }
        };
        assert(decoded_samples_16(e) =~= Seq::new(
            frame.len(),
            |i: int| sample_to_i16_val(frame[i] as int),
        ));
    }
}

/// The canonical 44-byte PCM WAV header for mono/multichannel integer
/// samples: RIFF chunk, `fmt ` chunk (format tag 1), `data` chunk
/// header with the final data length.
pub open spec fn wav_header(channels: int, sample_rate: int, bits: int, data_len: int) -> Seq<u8> {
    let block_align = channels * bytes_per_sample(bits);
    let byte_rate = sample_rate * block_align;
    seq![0x52u8, 0x49u8, 0x46u8, 0x46u8]  // "RIFF"
     + le_bytes(36 + data_len, 4) + seq![0x57u8, 0x41u8, 0x56u8, 0x45u8]  // "WAVE"
     + seq![0x66u8, 0x6du8, 0x74u8, 0x20u8]  // "fmt "
     + le_bytes(16, 4)  // fmt chunk size
     + le_bytes(1, 2)  // format tag: integer PCM
     + le_bytes(channels, 2) + le_bytes(sample_rate, 4) + le_bytes(byte_rate, 4) + le_bytes(
        block_align,
        2,
    ) + le_bytes(bits, 2) + seq![0x64u8, 0x61u8, 0x74u8, 0x61u8]  // "data"
     + le_bytes(data_len, 4)
}

/// The header always takes 44 bytes.
pub proof fn lemma_wav_header_len(channels: int, sample_rate: int, bits: int, data_len: int)
    ensures
        wav_header(channels, sample_rate, bits, data_len).len() == 44,
{
    let block_align = channels * bytes_per_sample(bits);
    let byte_rate = sample_rate * block_align;
    lemma_le_bytes_len(36 + data_len, 4);
    lemma_le_bytes_len(16, 4);
    lemma_le_bytes_len(1, 2);
    lemma_le_bytes_len(channels, 2);
    lemma_le_bytes_len(sample_rate, 4);
    lemma_le_bytes_len(byte_rate, 4);
    lemma_le_bytes_len(block_align, 2);
    lemma_le_bytes_len(bits, 2);
    lemma_le_bytes_len(data_len, 4);
}

/// Append the two little-endian bytes of `v`.
pub fn push_u16_le(out: &mut Vec<u8>, v: u16)
    ensures
        final(out)@ == old(out)@ + le_bytes(v as int, 2),
{
    out.push((v % 256) as u8);
    out.push(((v / 256) % 256) as u8);
    proof {
        reveal_with_fuel(le_bytes, 3);
        assert(final(out)@ =~= old(out)@ + le_bytes(v as int, 2));
    }
}

/// Append the three little-endian bytes of `v`.
pub fn push_u24_le(out: &mut Vec<u8>, v: u32)
    requires
        v < 0x100_0000,
    ensures
        final(out)@ == old(out)@ + le_bytes(v as int, 3),
{
    out.push((v % 256) as u8);
    out.push(((v / 256) % 256) as u8);
    out.push(((v / 0x1_0000) % 256) as u8);
    proof {
        reveal_with_fuel(le_bytes, 4);
        assert(final(out)@ =~= old(out)@ + le_bytes(v as int, 3));
    }
}

/// Append the four little-endian bytes of `v`.
pub fn push_u32_le(out: &mut Vec<u8>, v: u32)
    ensures
        final(out)@ == old(out)@ + le_bytes(v as int, 4),
{
    out.push((v % 256) as u8);
    out.push(((v / 256) % 256) as u8);
    out.push(((v / 0x1_0000) % 256) as u8);
    out.push(((v / 0x100_0000) % 256) as u8);
    proof {
        reveal_with_fuel(le_bytes, 5);
        assert(final(out)@ =~= old(out)@ + le_bytes(v as int, 4));
    }
}

/// Append the container bytes of one fixed-point sample.
pub fn push_sample(out: &mut Vec<u8>, s: i64, bits: u16)
    requires
        valid_bits(bits as int),
    ensures
        final(out)@ == old(out)@ + sample_encoding(s as int, bits as int),
{
    let v: i16 = crate::sample::sample_to_i16(s);
    if bits == 16 {
        let u: u16 = if v >= 0 {
            v as u16
        } else {
            ((v as i32) + 0x1_0000) as u16
        };
        assert(u as int == twos_complement(v as int, 0x1_0000));
        push_u16_le(out, u);
    } else if bits == 24 {
        let u: u32 = if v >= 0 {
            v as u32
        } else {
            ((v as i32) + 0x100_0000) as u32
        };
        assert(u as int == twos_complement(v as int, 0x100_0000));
        push_u24_le(out, u);
    } else {
        let u: u32 = if v >= 0 {
            v as u32
        } else {
            (((v as i64) + 0x1_0000_0000) as u32)
        };
        assert(u as int == twos_complement(v as int, 0x1_0000_0000));
        push_u32_le(out, u);
    }
}

/// Build the 44-byte header. The bounds are the container's own: the
/// block-align field is 16 bits wide and the byte-rate field 32.
pub fn build_wav_header(channels: u16, sample_rate: u32, bits: u16, data_len: u32) -> (r: Vec<u8>)
    requires
        valid_bits(bits as int),
        1 <= channels,
        channels * bytes_per_sample(bits as int) <= 0xFFFF,
        sample_rate * (channels * bytes_per_sample(bits as int)) <= 0xFFFF_FFFF,
        data_len <= 0xFFFF_FFFF - 36,
    ensures
        r@ == wav_header(channels as int, sample_rate as int, bits as int, data_len as int),
{
    let bps: u16 = bits / 8;
    assert(channels * bps == channels * bytes_per_sample(bits as int));
    let block_align: u16 = channels * bps;
    let byte_rate: u32 = sample_rate * (block_align as u32);
    let mut out: Vec<u8> = Vec::new();
    out.push(0x52);
    out.push(0x49);
    out.push(0x46);
    out.push(0x46);
    push_u32_le(&mut out, 36 + data_len);
    out.push(0x57);
    out.push(0x41);
    out.push(0x56);
    out.push(0x45);
    out.push(0x66);
    out.push(0x6d);
    out.push(0x74);
    out.push(0x20);
    push_u32_le(&mut out, 16);
    push_u16_le(&mut out, 1);
    push_u16_le(&mut out, channels);
    push_u32_le(&mut out, sample_rate);
    push_u32_le(&mut out, byte_rate);
    push_u16_le(&mut out, block_align);
    push_u16_le(&mut out, bits);
    out.push(0x64);
    out.push(0x61);
    out.push(0x74);
    out.push(0x61);
    push_u32_le(&mut out, data_len);
    proof {
        assert(out@ =~= wav_header(
            channels as int,
            sample_rate as int,
            bits as int,
            data_len as int,
        ));
    }
    out
}

} // verus!
