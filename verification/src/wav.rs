//! WAV staging codec.
//!
//! Chunks travel to the speech-to-text backends as mono 16 kHz WAV
//! payloads, either 32-bit float PCM or signed 16-bit integer PCM. Samples
//! are carried as their bit patterns (`u32` for float, `u16` for 16-bit
//! two's complement), so encoding and decoding are exact: decoding an
//! encoded payload yields the original samples bit for bit.
//!
//! The decoder is strict: it accepts exactly the payloads this encoder
//! produces, which is all the staging layer ever needs to read back.

use vstd::arithmetic::div_mod::{
    lemma_div_denominator, lemma_div_is_ordered, lemma_fundamental_div_mod, lemma_mod_bound,
};
use vstd::prelude::*;

use crate::errors::DictationError;

verus! {

/// The most samples a 32-bit float payload can hold: the data and RIFF
/// sizes must fit the format's 32-bit length fields.
pub const MAX_WAV_SAMPLES_F32: usize = (0xFFFF_FFFF - 36) / 4;

/// The most samples a 16-bit integer payload can hold.
pub const MAX_WAV_SAMPLES_PCM16: usize = (0xFFFF_FFFF - 36) / 2;

/// The four little-endian bytes of `x`, for `0 <= x < 2^32`.
pub open spec fn le32(x: int) -> Seq<u8> {
    seq![
        (x % 256) as u8,
        ((x / 256) % 256) as u8,
        ((x / 65536) % 256) as u8,
        ((x / 16777216) % 256) as u8,
    ]
}

/// The two little-endian bytes of `x`, for `0 <= x < 2^16`.
pub open spec fn le16(x: int) -> Seq<u8> {
    seq![(x % 256) as u8, ((x / 256) % 256) as u8]
}

/// The value of the four little-endian bytes at `i`.
pub open spec fn u32_at(b: Seq<u8>, i: int) -> int {
    b[i] + 256 * b[i + 1] + 65536 * b[i + 2] + 16777216 * b[i + 3]
}

/// The value of the two little-endian bytes at `i`.
pub open spec fn u16_at(b: Seq<u8>, i: int) -> int {
    b[i] + 256 * b[i + 1]
}

/// Reading back the four little-endian bytes of `x` yields `x`.
pub proof fn lemma_le32_value(x: int)
    requires
        0 <= x < 0x1_0000_0000,
    ensures
        u32_at(le32(x), 0) == x,
{
    lemma_mod_bound(x, 256);
    lemma_mod_bound(x / 256, 256);
    lemma_mod_bound(x / 65536, 256);
    lemma_fundamental_div_mod(x, 256);
    lemma_fundamental_div_mod(x / 256, 256);
    lemma_fundamental_div_mod(x / 65536, 256);
    lemma_div_denominator(x, 256, 256);
    lemma_div_denominator(x, 65536, 256);
    lemma_div_is_ordered(0, x, 16777216);
    lemma_div_is_ordered(x, 0xFFFF_FFFF, 16777216);
}

/// Reading back the two little-endian bytes of `x` yields `x`.
pub proof fn lemma_le16_value(x: int)
    requires
        0 <= x < 0x1_0000,
    ensures
        u16_at(le16(x), 0) == x,
{
    lemma_mod_bound(x, 256);
    lemma_fundamental_div_mod(x, 256);
    lemma_div_is_ordered(0, x, 256);
    lemma_div_is_ordered(x, 0xFFFF, 256);
}

/// The 44-byte RIFF/WAVE header of a mono 16 kHz payload: `fmt_tag` is the
/// WAVE format tag (3 for IEEE float, 1 for integer PCM), `sample_bytes`
/// the width of one sample in bytes, `data_len` the byte length of the
/// sample data that follows.
pub open spec fn wav_header(fmt_tag: int, sample_bytes: int, data_len: int) -> Seq<u8> {
    seq![0x52u8, 0x49u8, 0x46u8, 0x46u8] + le32(36 + data_len) + seq![
        0x57u8,
        0x41u8,
        0x56u8,
        0x45u8,
        0x66u8,
        0x6du8,
        0x74u8,
        0x20u8,
        16u8,
        0u8,
        0u8,
        0u8,
        fmt_tag as u8,
        0u8,
        1u8,
        0u8,
    ] + le32(16000) + le32(16000 * sample_bytes) + seq![
        sample_bytes as u8,
        0u8,
        (8 * sample_bytes) as u8,
        0u8,
        0x64u8,
        0x61u8,
        0x74u8,
        0x61u8,
    ] + le32(data_len)
}

/// The sample data of a float payload: each sample's bit pattern, little
/// endian, in order.
pub open spec fn data_bytes_f32(s: Seq<u32>) -> Seq<u8>
    decreases s.len(),
{
    if s.len() == 0 {
        Seq::empty()
    } else {
        data_bytes_f32(s.drop_last()) + le32(s.last() as int)
    }
}

/// The sample data of a 16-bit integer payload.
pub open spec fn data_bytes_pcm16(s: Seq<u16>) -> Seq<u8>
    decreases s.len(),
{
    if s.len() == 0 {
        Seq::empty()
    } else {
        data_bytes_pcm16(s.drop_last()) + le16(s.last() as int)
    }
}

pub proof fn lemma_data_f32_len(s: Seq<u32>)
    ensures
        data_bytes_f32(s).len() == 4 * s.len(),
    decreases s.len(),
{
    if s.len() > 0 {
        lemma_data_f32_len(s.drop_last());
    }
}

pub proof fn lemma_data_pcm16_len(s: Seq<u16>)
    ensures
        data_bytes_pcm16(s).len() == 2 * s.len(),
    decreases s.len(),
{
    if s.len() > 0 {
        lemma_data_pcm16_len(s.drop_last());
    }
}

/// The samples encoded in a float payload's data section (whole groups of
/// four bytes, read back to front).
pub open spec fn samples_of_data_f32(b: Seq<u8>) -> Seq<u32>
    decreases b.len(),
{
    if b.len() < 4 {
        Seq::empty()
    } else {
        samples_of_data_f32(b.take(b.len() - 4)).push(u32_at(b, b.len() - 4) as u32)
    }
}

/// The samples encoded in a 16-bit payload's data section.
pub open spec fn samples_of_data_pcm16(b: Seq<u8>) -> Seq<u16>
    decreases b.len(),
{
    if b.len() < 2 {
        Seq::empty()
    } else {
        samples_of_data_pcm16(b.take(b.len() - 2)).push(u16_at(b, b.len() - 2) as u16)
    }
}

/// Decoding the data section of an encoded sample sequence yields exactly
/// that sequence.
pub proof fn lemma_data_f32_roundtrip(s: Seq<u32>)
    ensures
        samples_of_data_f32(data_bytes_f32(s)) == s,
    decreases s.len(),
{
    if s.len() > 0 {
        let rest = s.drop_last();
        let x = s.last();
        lemma_data_f32_roundtrip(rest);
        lemma_data_f32_len(rest);
        lemma_data_f32_len(s);
        let b = data_bytes_f32(s);
        assert(b.take(b.len() - 4) =~= data_bytes_f32(rest));
        lemma_le32_value(x as int);
        assert(u32_at(b, b.len() - 4) == u32_at(le32(x as int), 0));
        assert(samples_of_data_f32(b) =~= s);
    }
}

pub proof fn lemma_data_pcm16_roundtrip(s: Seq<u16>)
    ensures
        samples_of_data_pcm16(data_bytes_pcm16(s)) == s,
    decreases s.len(),
{
    if s.len() > 0 {
        let rest = s.drop_last();
        let x = s.last();
        lemma_data_pcm16_roundtrip(rest);
        lemma_data_pcm16_len(rest);
        lemma_data_pcm16_len(s);
        let b = data_bytes_pcm16(s);
        assert(b.take(b.len() - 2) =~= data_bytes_pcm16(rest));
        lemma_le16_value(x as int);
        assert(u16_at(b, b.len() - 2) == u16_at(le16(x as int), 0));
        assert(samples_of_data_pcm16(b) =~= s);
    }
}

/// A whole 32-bit float payload.
pub open spec fn wav_bytes_f32(s: Seq<u32>) -> Seq<u8> {
    wav_header(3, 4, 4 * s.len() as int) + data_bytes_f32(s)
}

/// A whole 16-bit integer payload.
pub open spec fn wav_bytes_pcm16(s: Seq<u16>) -> Seq<u8> {
    wav_header(1, 2, 2 * s.len() as int) + data_bytes_pcm16(s)
}

/// What the strict float decoder accepts: exactly the encoder's payloads,
/// and the samples they carry.
pub open spec fn parse_wav_f32(b: Seq<u8>) -> Option<Seq<u32>> {
    if b.len() < 44 {
        None
    } else {
        let dl = u32_at(b, 40);
        if b.len() == 44 + dl && dl % 4 == 0 && dl <= 0xFFFF_FFFF - 36 && b.subrange(0, 44)
            == wav_header(3, 4, dl) {
            Some(samples_of_data_f32(b.skip(44)))
        } else {
            None
        }
    }
}

/// What the strict 16-bit decoder accepts.
pub open spec fn parse_wav_pcm16(b: Seq<u8>) -> Option<Seq<u16>> {
    if b.len() < 44 {
        None
    } else {
        let dl = u32_at(b, 40);
        if b.len() == 44 + dl && dl % 2 == 0 && dl <= 0xFFFF_FFFF - 36 && b.subrange(0, 44)
            == wav_header(1, 2, dl) {
            Some(samples_of_data_pcm16(b.skip(44)))
        } else {
            None
        }
    }
}

/// Round trip, float format: a payload encoded from any sample sequence
/// decodes back to exactly that sequence.
pub proof fn lemma_wav_roundtrip_f32(s: Seq<u32>)
    requires
        s.len() <= MAX_WAV_SAMPLES_F32,
    ensures
        parse_wav_f32(wav_bytes_f32(s)) == Some(s),
{
    let dl = 4 * s.len() as int;
    let h = wav_header(3, 4, dl);
    let d = data_bytes_f32(s);
    let b = wav_bytes_f32(s);
    lemma_data_f32_len(s);
    assert(h.len() == 44);
    assert(b.len() == 44 + dl);
    assert(b[40] == le32(dl)[0] && b[41] == le32(dl)[1] && b[42] == le32(dl)[2] && b[43] == le32(
        dl,
    )[3]);
    lemma_le32_value(dl);
    assert(u32_at(b, 40) == dl);
    assert(b.subrange(0, 44) =~= h);
    assert(b.skip(44) =~= d);
    lemma_data_f32_roundtrip(s);
}

/// Round trip, 16-bit integer format.
pub proof fn lemma_wav_roundtrip_pcm16(s: Seq<u16>)
    requires
        s.len() <= MAX_WAV_SAMPLES_PCM16,
    ensures
        parse_wav_pcm16(wav_bytes_pcm16(s)) == Some(s),
{
    let dl = 2 * s.len() as int;
    let h = wav_header(1, 2, dl);
    let d = data_bytes_pcm16(s);
    let b = wav_bytes_pcm16(s);
    lemma_data_pcm16_len(s);
    assert(h.len() == 44);
    assert(b.len() == 44 + dl);
    assert(b[40] == le32(dl)[0] && b[41] == le32(dl)[1] && b[42] == le32(dl)[2] && b[43] == le32(
        dl,
    )[3]);
    lemma_le32_value(dl);
    assert(u32_at(b, 40) == dl);
    assert(b.subrange(0, 44) =~= h);
    assert(b.skip(44) =~= d);
    lemma_data_pcm16_roundtrip(s);
}

/// Appends the four little-endian bytes of `x`.
fn push_le32(out: &mut Vec<u8>, x: u32)
    ensures
        final(out)@ == old(out)@ + le32(x as int),
{
    out.push((x % 256) as u8);
    out.push(((x / 256) % 256) as u8);
    out.push(((x / 65536) % 256) as u8);
    out.push(((x / 16777216) % 256) as u8);
    assert(out@ =~= old(out)@ + le32(x as int));
}

/// Appends the two little-endian bytes of `x`.
fn push_le16(out: &mut Vec<u8>, x: u16)
    ensures
        final(out)@ == old(out)@ + le16(x as int),
{
    out.push((x % 256) as u8);
    out.push(((x / 256) % 256) as u8);
    assert(out@ =~= old(out)@ + le16(x as int));
}

/// Builds the 44-byte header.
fn build_header(fmt_tag: u8, sample_bytes: u8, data_len: u32) -> (h: Vec<u8>)
    requires
        sample_bytes == 2 || sample_bytes == 4,
        data_len <= 0xFFFF_FFFFu32 - 36,
    ensures
        h@ == wav_header(fmt_tag as int, sample_bytes as int, data_len as int),
        h@.len() == 44,
{
    let mut h: Vec<u8> = Vec::new();
    h.push(0x52);
    h.push(0x49);
    h.push(0x46);
    h.push(0x46);
    push_le32(&mut h, 36 + data_len);
    h.push(0x57);
    h.push(0x41);
    h.push(0x56);
    h.push(0x45);
    h.push(0x66);
    h.push(0x6d);
    h.push(0x74);
    h.push(0x20);
    h.push(16);
    h.push(0);
    h.push(0);
    h.push(0);
    h.push(fmt_tag);
    h.push(0);
    h.push(1);
    h.push(0);
    push_le32(&mut h, 16000);
    push_le32(&mut h, 16000 * sample_bytes as u32);
    h.push(sample_bytes);
    h.push(0);
    h.push(8 * sample_bytes);
    h.push(0);
    h.push(0x64);
    h.push(0x61);
    h.push(0x74);
    h.push(0x61);
    push_le32(&mut h, data_len);
    assert(h@ =~= wav_header(fmt_tag as int, sample_bytes as int, data_len as int));
    h
}

/// Encodes float samples (as bit patterns) into a complete WAV payload.
pub fn encode_wav_f32(samples: &Vec<u32>) -> (r: Vec<u8>)
    requires
        samples@.len() <= MAX_WAV_SAMPLES_F32,
    ensures
        r@ == wav_bytes_f32(samples@),
{
    let n = samples.len();
    let data_len: u32 = (4 * n) as u32;
    let mut out = build_header(3, 4, data_len);
    let ghost header = wav_header(3, 4, 4 * samples@.len() as int);
    let mut i: usize = 0;
    while i < n
        invariant
            i <= n,
            n == samples@.len(),
            out@ == header + data_bytes_f32(samples@.take(i as int)),
        decreases n - i,
    {
        push_le32(&mut out, samples[i]);
        proof {
            assert(samples@.take(i + 1 as int).drop_last() =~= samples@.take(i as int));
            assert(samples@.take(i + 1 as int).last() == samples@[i as int]);
        }
        i = i + 1;
    }
    proof {
        assert(samples@.take(n as int) =~= samples@);
    }
    out
}

/// Encodes 16-bit integer samples (as two's-complement bit patterns) into
/// a complete WAV payload.
pub fn encode_wav_pcm16(samples: &Vec<u16>) -> (r: Vec<u8>)
    requires
        samples@.len() <= MAX_WAV_SAMPLES_PCM16,
    ensures
        r@ == wav_bytes_pcm16(samples@),
{
    let n = samples.len();
    let data_len: u32 = (2 * n) as u32;
    let mut out = build_header(1, 2, data_len);
    let ghost header = wav_header(1, 2, 2 * samples@.len() as int);
    let mut i: usize = 0;
    while i < n
        invariant
            i <= n,
            n == samples@.len(),
            out@ == header + data_bytes_pcm16(samples@.take(i as int)),
        decreases n - i,
    {
        push_le16(&mut out, samples[i]);
        proof {
            assert(samples@.take(i + 1 as int).drop_last() =~= samples@.take(i as int));
            assert(samples@.take(i + 1 as int).last() == samples@[i as int]);
        }
        i = i + 1;
    }
    proof {
        assert(samples@.take(n as int) =~= samples@);
    }
    out
}

/// Reads the four little-endian bytes at `i`.
fn read_u32_at(b: &Vec<u8>, i: usize) -> (r: u32)
    requires
        i + 4 <= b@.len(),
    ensures
        r as int == u32_at(b@, i as int),
{
    // the exec length bounds the indexes below within usize
    let _len = b.len();
    (b[i] as u32) + 256 * (b[i + 1] as u32) + 65536 * (b[i + 2] as u32) + 16777216 * (b[i + 3]
        as u32)
}

/// Reads the two little-endian bytes at `i`.
fn read_u16_at(b: &Vec<u8>, i: usize) -> (r: u16)
    requires
        i + 2 <= b@.len(),
    ensures
        r as int == u16_at(b@, i as int),
{
    // the exec length bounds the indexes below within usize
    let _len = b.len();
    (b[i] as u16) + 256 * (b[i + 1] as u16)
}

/// Whether `h` is a prefix of `b`, byte for byte.
fn prefix_matches(b: &Vec<u8>, h: &Vec<u8>) -> (r: bool)
    requires
        h@.len() <= b@.len(),
    ensures
        r <==> b@.subrange(0, h@.len() as int) == h@,
{
    let n = h.len();
    let mut i: usize = 0;
    while i < n
        invariant
            i <= n,
            n == h@.len() <= b@.len(),
            forall|j: int| 0 <= j < i ==> b@[j] == h@[j],
        decreases n - i,
    {
        if b[i] != h[i] {
            proof {
                assert(b@.subrange(0, h@.len() as int)[i as int] != h@[i as int]);
            }
            return false;
        }
        i = i + 1;
    }
    proof {
        assert(b@.subrange(0, h@.len() as int) =~= h@);
    }
    true
}

/// The error every malformed payload is refused with.
fn malformed() -> (r: DictationError)
    ensures
        (r matches DictationError::Storage(m) && m@ == "malformed WAV payload"@),
{
    DictationError::Storage("malformed WAV payload".to_owned())
}

/// Decodes a 32-bit float WAV payload back to its samples. Accepts exactly
/// the payloads `encode_wav_f32` produces; anything else is refused as a
/// storage error.
pub fn decode_wav_f32(bytes: &Vec<u8>) -> (r: Result<Vec<u32>, DictationError>)
    ensures
        (r matches Ok(v) ==> parse_wav_f32(bytes@) == Some(v@)),
        r is Err <==> parse_wav_f32(bytes@) is None,
        (r matches Err(e) ==> (e matches DictationError::Storage(m) && m@
            == "malformed WAV payload"@)),
{
    if bytes.len() < 44 {
        return Err(malformed());
    }
    let dl = read_u32_at(bytes, 40);
    if dl > 0xFFFF_FFFFu32 - 36 {
        return Err(malformed());
    }
    if dl % 4 != 0 {
        return Err(malformed());
    }
    if bytes.len() - 44 != dl as usize {
        return Err(malformed());
    }
    let expected = build_header(3, 4, dl);
    if !prefix_matches(bytes, &expected) {
        return Err(malformed());
    }
    let n = dl as usize / 4;
    proof {
        lemma_fundamental_div_mod(dl as int, 4);
    }
    let blen = bytes.len();
    let ghost data = bytes@.skip(44);
    let mut out: Vec<u32> = Vec::new();
    let mut k: usize = 0;
    while k < n
        invariant
            k <= n,
            4 * n as int == dl as int,
            blen == bytes@.len() == 44 + dl,
            data == bytes@.skip(44),
            out@ == samples_of_data_f32(data.take(4 * k as int)),
        decreases n - k,
    {
        let x = read_u32_at(bytes, 44 + 4 * k);
        proof {
            let t = data.take(4 * (k + 1) as int);
            assert(t.take(t.len() - 4) =~= data.take(4 * k as int));
            assert(u32_at(t, 4 * k as int) == u32_at(bytes@, 44 + 4 * k as int));
        }
        out.push(x);
        k = k + 1;
    }
    proof {
        assert(data.take(4 * n as int) =~= data);
    }
    Ok(out)
}

/// Decodes a 16-bit integer WAV payload back to its samples (as bit
/// patterns). Accepts exactly the payloads `encode_wav_pcm16` produces.
pub fn decode_wav_pcm16(bytes: &Vec<u8>) -> (r: Result<Vec<u16>, DictationError>)
    ensures
        (r matches Ok(v) ==> parse_wav_pcm16(bytes@) == Some(v@)),
        r is Err <==> parse_wav_pcm16(bytes@) is None,
        (r matches Err(e) ==> (e matches DictationError::Storage(m) && m@
            == "malformed WAV payload"@)),
{
    if bytes.len() < 44 {
        return Err(malformed());
    }
    let dl = read_u32_at(bytes, 40);
    if dl > 0xFFFF_FFFFu32 - 36 {
        return Err(malformed());
    }
    if dl % 2 != 0 {
        return Err(malformed());
    }
    if bytes.len() - 44 != dl as usize {
        return Err(malformed());
    }
    let expected = build_header(1, 2, dl);
    if !prefix_matches(bytes, &expected) {
        return Err(malformed());
    }
    let n = dl as usize / 2;
    proof {
        lemma_fundamental_div_mod(dl as int, 2);
    }
    let blen = bytes.len();
    let ghost data = bytes@.skip(44);
    let mut out: Vec<u16> = Vec::new();
    let mut k: usize = 0;
    while k < n
        invariant
            k <= n,
            2 * n as int == dl as int,
            blen == bytes@.len() == 44 + dl,
            data == bytes@.skip(44),
            out@ == samples_of_data_pcm16(data.take(2 * k as int)),
        decreases n - k,
    {
        let x = read_u16_at(bytes, 44 + 2 * k);
        proof {
            let t = data.take(2 * (k + 1) as int);
            assert(t.take(t.len() - 2) =~= data.take(2 * k as int));
            assert(u16_at(t, 2 * k as int) == u16_at(bytes@, 44 + 2 * k as int));
        }
        out.push(x);
        k = k + 1;
    }
    proof {
        assert(data.take(2 * n as int) =~= data);
    }
    Ok(out)
}

} // verus!
