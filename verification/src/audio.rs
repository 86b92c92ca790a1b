//! 16-bit PCM sample arithmetic for live recordings (down-mixing and mixing
//! two captures), recording durations, and the Ogg/Opus header checks.
use vstd::prelude::*;

use crate::paths::{path_extension, path_extension_spec};
use crate::errors::TranscriptionError;
use crate::text::{ascii_lower_spec, ascii_lowercase_chars, chars_of};

verus! {

/// `a + b` clamped to the `i16` range.
pub open spec fn clamp_i16(x: int) -> int {
    if x < i16::MIN {
        i16::MIN as int
    } else if x > i16::MAX {
        i16::MAX as int
    } else {
        x
    }
}

/// Sum of two samples, clamped to the `i16` range.
pub fn mix_sample(a: i16, b: i16) -> (r: i16)
    ensures
        r == clamp_i16(a + b),
{
    let s: i32 = a as i32 + b as i32;
    if s < -32768 {
        -32768
    } else if s > 32767 {
        32767
    } else {
        s as i16
    }
}

/// The mixed recording: sample-wise sums (clamped) while both have samples,
/// then the rest of the longer one.
pub open spec fn mixed_at(mic: Seq<i16>, loopback: Seq<i16>, i: int) -> i16 {
    if i < mic.len() && i < loopback.len() {
        clamp_i16(mic[i] + loopback[i]) as i16
    } else if i < mic.len() {
        mic[i]
    } else {
        loopback[i]
    }
}

/// Mixes two mono recordings of the same sample rate into one.
pub fn mix_mono_samples(mic: &Vec<i16>, loopback: &Vec<i16>) -> (r: Vec<i16>)
    ensures
        r@.len() == if mic@.len() >= loopback@.len() { mic@.len() } else { loopback@.len() },
        forall|i: int| 0 <= i < r@.len() ==> #[trigger] r@[i] == mixed_at(mic@, loopback@, i),
{
    let max_len = if mic.len() >= loopback.len() { mic.len() } else { loopback.len() };
    let mut out: Vec<i16> = Vec::new();
    let mut i: usize = 0;
    while i < max_len
        invariant
            max_len == if mic@.len() >= loopback@.len() { mic@.len() } else { loopback@.len() },
            i <= max_len,
            out@.len() == i,
            forall|k: int| 0 <= k < i ==> #[trigger] out@[k] == mixed_at(mic@, loopback@, k),
        decreases max_len - i,
    {
        let sample = if i < mic.len() && i < loopback.len() {
            mix_sample(mic[i], loopback[i])
        } else if i < mic.len() {
            mic[i]
        } else {
            loopback[i]
        };
        out.push(sample);
        i = i + 1;
    }
    out
}

/// What mixing does at each position: where both recordings have a sample
/// it is their sum (clamped only when the sum leaves the `i16` range), and
/// where only one recording still has samples the output copies that one.
pub proof fn law_mix_adds_then_copies_the_longer_tail(mic: Seq<i16>, loopback: Seq<i16>, i: int)
    requires
        0 <= i,
    ensures
        i < mic.len() && i < loopback.len() && i16::MIN <= mic[i] + loopback[i] <= i16::MAX
            ==> mixed_at(mic, loopback, i) == mic[i] + loopback[i],
        i < mic.len() && i < loopback.len() && mic[i] + loopback[i] > i16::MAX ==> mixed_at(
            mic,
            loopback,
            i,
        ) == i16::MAX,
        i < mic.len() && i < loopback.len() && mic[i] + loopback[i] < i16::MIN ==> mixed_at(
            mic,
            loopback,
            i,
        ) == i16::MIN,
        loopback.len() <= i < mic.len() ==> mixed_at(mic, loopback, i) == mic[i],
        mic.len() <= i < loopback.len() ==> mixed_at(mic, loopback, i) == loopback[i],
{
}

/// Integer division rounding toward zero, as Rust's `/` on integers does.
pub open spec fn div_trunc(a: int, b: int) -> int {
    if a >= 0 {
        a / b
    } else {
        -((-a) / b)
    }
}

/// Sum of the samples `s[from..to]`.
pub open spec fn sum_range(s: Seq<i16>, from: int, to: int) -> int
    decreases to - from,
{
    if to <= from {
        0
    } else {
        sum_range(s, from, to - 1) + s[to - 1]
    }
}

/// Frame `f` of an interleaved recording with `ch` channels: its first
/// sample and its length (the last frame may be short).
pub open spec fn frame_start(f: int, ch: int) -> int {
    f * ch
}

pub open spec fn frame_end(len: int, f: int, ch: int) -> int {
    if (f + 1) * ch <= len {
        (f + 1) * ch
    } else {
        len
    }
}

/// Number of frames (`chunks(ch)`) of an interleaved recording.
pub open spec fn frame_count(len: int, ch: int) -> int {
    (len + ch - 1) / ch
}

/// The mono sample for frame `f`: the average of its samples, rounded toward zero.
pub open spec fn downmixed_at(s: Seq<i16>, ch: int, f: int) -> int {
    div_trunc(
        sum_range(s, frame_start(f, ch), frame_end(s.len() as int, f, ch)),
        frame_end(s.len() as int, f, ch) - frame_start(f, ch),
    )
}

proof fn lemma_sum_range_bounds(s: Seq<i16>, from: int, to: int)
    requires
        0 <= from <= to <= s.len(),
    ensures
        (to - from) * (i16::MIN as int) <= sum_range(s, from, to) <= (to - from) * (i16::MAX as int),
    decreases to - from,
{
    if to > from {
        lemma_sum_range_bounds(s, from, to - 1);
    }
}

proof fn lemma_div_trunc_bounds(a: int, n: int)
    requires
        n > 0,
        n * (i16::MIN as int) <= a <= n * (i16::MAX as int),
    ensures
        i16::MIN <= div_trunc(a, n) <= i16::MAX,
{
    if a >= 0 {
        assert(a / n <= i16::MAX) by (nonlinear_arith)
            requires
                n > 0,
                0 <= a <= n * 32767,
        ;
        assert(a / n >= 0) by (nonlinear_arith)
            requires
                n > 0,
                0 <= a,
        ;
    } else {
        assert((-a) / n <= 32768) by (nonlinear_arith)
            requires
                n > 0,
                0 <= -a <= n * 32768,
        ;
        assert((-a) / n >= 0) by (nonlinear_arith)
            requires
                n > 0,
                0 <= -a,
        ;
    }
}

/// Down-mixes interleaved samples to mono: each frame of `channels` samples
/// becomes their average (rounded toward zero); one channel passes through.
pub fn downmix_to_mono(interleaved_samples: Vec<i16>, channels: u16) -> (r: Vec<i16>)
    ensures
        channels <= 1 ==> r@ == interleaved_samples@,
        channels > 1 ==> r@.len() == frame_count(interleaved_samples@.len() as int, channels as int),
        channels > 1 ==> forall|f: int|
            0 <= f < r@.len() ==> #[trigger] r@[f] == downmixed_at(
                interleaved_samples@,
                channels as int,
                f,
            ),
{
    if channels <= 1 {
        return interleaved_samples;
    }
    let ch = channels as usize;
    let s = &interleaved_samples;
    let len = s.len();
    let mut out: Vec<i16> = Vec::new();
    let mut start: usize = 0;
    let ghost chi = ch as int;
    assert(0 * chi == 0);
    while start < len
        invariant
            ch == channels as usize,
            ch >= 2,
            chi == ch as int,
            len == s@.len(),
            start <= len,
            start < len ==> start == out@.len() * chi,
            start <= out@.len() * chi,
            out@.len() > 0 ==> (out@.len() - 1) * chi < start,
            forall|f: int| 0 <= f < out@.len() ==> #[trigger] out@[f] == downmixed_at(s@, chi, f),
        decreases len - start,
    {
        let ghost f = out@.len() as int;
        let end: usize = if len - start >= ch { start + ch } else { len };
        assert(frame_start(f, chi) == start);
        assert((f + 1) * chi == start + chi) by (nonlinear_arith)
            requires
                start == f * chi,
        ;
        assert(end == frame_end(len as int, f, chi));
        let mut sum: i32 = 0;
        let mut k = start;
        while k < end
            invariant
                start <= k <= end <= len,
                len == s@.len(),
                end - start <= ch,
                ch <= 65535,
                sum == sum_range(s@, start as int, k as int),
            decreases end - k,
        {
            proof {
                lemma_sum_range_bounds(s@, start as int, k as int);
                assert((k - start) * (i16::MAX as int) <= 65535 * 32767) by (nonlinear_arith)
                    requires
                        0 <= k - start <= 65535,
                ;
                assert((k - start) * (i16::MIN as int) >= 65535 * -32768) by (nonlinear_arith)
                    requires
                        0 <= k - start <= 65535,
                ;
            }
            sum = sum + s[k] as i32;
            k = k + 1;
        }
        let n: i32 = (end - start) as i32;
        proof {
            lemma_sum_range_bounds(s@, start as int, end as int);
            lemma_div_trunc_bounds(sum as int, n as int);
        }
        let avg: i32 = sum / n;
        assert(avg == div_trunc(sum as int, n as int));
        out.push(avg as i16);
        start = end;
        assert(out@.len() * chi == f * chi + chi) by (nonlinear_arith)
            requires
                out@.len() == f + 1,
        ;
    }
    proof {
        let n = out@.len() as int;
        assert(start == len);
        assert(chi == channels as int);
        if n > 0 {
            assert(n == (len as int + chi - 1) / chi) by (nonlinear_arith)
                requires
                    chi >= 2,
                    (n - 1) * chi < len as int,
                    len as int <= n * chi,
            ;
        } else {
            assert(n * chi == 0);
            assert(len == 0);
            assert((len as int + chi - 1) / chi == 0) by (nonlinear_arith)
                requires
                    chi >= 2,
                    len == 0,
            ;
        }
    }
    out
}

/// Milliseconds held by `frame_count` frames at `sample_rate_hz`
/// (`frame_count * 1000` saturates at `u64::MAX`); zero for a zero rate.
pub open spec fn duration_ms_spec(frame_count: u64, sample_rate_hz: u32) -> int {
    if sample_rate_hz == 0 {
        0
    } else {
        (if frame_count * 1000 > u64::MAX {
            u64::MAX as int
        } else {
            frame_count * 1000
        }) / (sample_rate_hz as int)
    }
}

/// Duration in milliseconds of `frame_count` frames at `sample_rate_hz`.
pub fn duration_ms_from_frames(frame_count: u64, sample_rate_hz: u32) -> (ms: u64)
    ensures
        ms == duration_ms_spec(frame_count, sample_rate_hz),
{
    if sample_rate_hz == 0 {
        return 0;
    }
    let total = match frame_count.checked_mul(1000) {
        Some(v) => v,
        None => u64::MAX,
    };
    total / (sample_rate_hz as u64)
}

/// Fields of an Opus identification header that decoding needs.
#[derive(Debug, Clone, Copy, PartialEq, Eq)]
pub struct OpusHead {
    pub channel_count: u8,
    pub pre_skip: u16,
    pub mapping_family: u8,
}

/// The bytes `OpusHead`.
pub open spec fn opus_head_magic() -> Seq<u8> {
    seq![0x4Fu8, 0x70u8, 0x75u8, 0x73u8, 0x48u8, 0x65u8, 0x61u8, 0x64u8]
}

/// The bytes `OpusTags`.
pub open spec fn opus_tags_magic() -> Seq<u8> {
    seq![0x4Fu8, 0x70u8, 0x75u8, 0x73u8, 0x54u8, 0x61u8, 0x67u8, 0x73u8]
}

/// `data` begins with `prefix`.
pub open spec fn bytes_start_with(data: Seq<u8>, prefix: Seq<u8>) -> bool {
    prefix.len() <= data.len() && data.subrange(0, prefix.len() as int) == prefix
}

fn bytes_start_with_exec(data: &[u8], prefix: &Vec<u8>) -> (r: bool)
    ensures
        r == bytes_start_with(data@, prefix@),
{
    if prefix.len() > data.len() {
        return false;
    }
    let mut i: usize = 0;
    while i < prefix.len()
        invariant
            prefix@.len() <= data@.len(),
            i <= prefix@.len(),
            forall|k: int| 0 <= k < i ==> data@[k] == prefix@[k],
        decreases prefix@.len() - i,
    {
        if data[i] != prefix[i] {
            assert(data@.subrange(0, prefix@.len() as int)[i as int] != prefix@[i as int]);
            return false;
        }
        i = i + 1;
    }
    assert(data@.subrange(0, prefix@.len() as int) =~= prefix@);
    true
}

/// Reads the channel count, pre-skip and mapping family of an `OpusHead`
/// packet: at least 19 bytes, starting with `OpusHead`, with a non-zero version.
pub fn parse_opus_head(data: &[u8]) -> (r: Result<OpusHead, TranscriptionError>)
    ensures
        r is Ok <==> (data@.len() >= 19 && bytes_start_with(data@, opus_head_magic()) && data@[8]
            != 0),
        r matches Ok(h) ==> h.channel_count == data@[9] && h.pre_skip == data@[10] + 256
            * data@[11] && h.mapping_family == data@[18],
        r matches Err(e) ==> (e matches TranscriptionError::AudioDecode(m) && m@ == if data@.len()
            < 19 || !bytes_start_with(data@, opus_head_magic()) {
            "The selected OGG file does not contain a valid OpusHead packet"@
        } else {
            "The selected OGG/Opus file uses an invalid OpusHead version"@
        }),
{
    let magic = vec![0x4Fu8, 0x70u8, 0x75u8, 0x73u8, 0x48u8, 0x65u8, 0x61u8, 0x64u8];
    assert(magic@ =~= opus_head_magic());
    if data.len() < 19 || !bytes_start_with_exec(data, &magic) {
        return Err(
            TranscriptionError::AudioDecode(
                "The selected OGG file does not contain a valid OpusHead packet".to_owned(),
            ),
        );
    }
    let version = data[8];
    if version == 0 {
        return Err(
            TranscriptionError::AudioDecode(
                "The selected OGG/Opus file uses an invalid OpusHead version".to_owned(),
            ),
        );
    }
    let pre_skip: u16 = (data[10] as u16) + (data[11] as u16) * 256;
    Ok(OpusHead { channel_count: data[9], pre_skip, mapping_family: data[18] })
}

/// Whether a packet is the `OpusTags` comment header.
pub fn is_opus_tags_packet(data: &[u8]) -> (r: bool)
    ensures
        r == bytes_start_with(data@, opus_tags_magic()),
{
    let magic = vec![0x4Fu8, 0x70u8, 0x75u8, 0x73u8, 0x54u8, 0x61u8, 0x67u8, 0x73u8];
    assert(magic@ =~= opus_tags_magic());
    bytes_start_with_exec(data, &magic)
}

/// The header limits decoding supports: mapping family 0 and one or two channels.
pub fn check_opus_head_supported(header: &OpusHead) -> (r: Result<(), TranscriptionError>)
    ensures
        r is Ok <==> (header.mapping_family == 0 && 1 <= header.channel_count <= 2),
        header.mapping_family != 0 ==> (r matches Err(TranscriptionError::AudioDecode(m)) && m@
            == "OGG/Opus files with custom channel mapping are not supported yet"@),
        header.mapping_family == 0 && !(1 <= header.channel_count <= 2) ==> (r matches Err(
            TranscriptionError::AudioDecode(m),
        ) && m@ == "OGG/Opus files with "@ + crate::text::decimal(header.channel_count as nat)
            + " channels are not supported yet"@),
{
    if header.mapping_family != 0 {
        return Err(
            TranscriptionError::AudioDecode(
                "OGG/Opus files with custom channel mapping are not supported yet".to_owned(),
            ),
        );
    }
    if !(1 <= header.channel_count && header.channel_count <= 2) {
        let mut m = "OGG/Opus files with ".to_owned();
        crate::text::push_decimal(&mut m, header.channel_count as u64);
        m.append(" channels are not supported yet");
        return Err(TranscriptionError::AudioDecode(m));
    }
    Ok(())
}

/// Whether the path's extension is `ogg`, ignoring ASCII case.
pub fn is_ogg_path(path: &str) -> (r: bool)
    ensures
        r == (path_extension_spec(path@) matches Some(e) && ascii_lower_spec(e) == "ogg"@),
{
    match path_extension(path) {
        Some(e) => {
            let lower = ascii_lowercase_chars(&chars_of(e.as_str()));
            let ogg = vec!['o', 'g', 'g'];
            proof {
                reveal_strlit("ogg");
                assert(ogg@ =~= "ogg"@);
            }
            crate::templates::seq_eq(&lower, &ogg)
        },
        None => false,
    }
}

} // verus!
