//! PCM wave files: the RIFF header, the PCM format chunk, and the samples of the data
//! chunk, kept as the signed integers that the file holds. A sample `s` of a file with
//! `bits_per_sample` bits stands for the level `s / 2^(bits_per_sample - 1)`.

use vstd::prelude::*;

use super::opus::le_u32;
use crate::byte_order::machine_is_little_endian;

verus! {

/// The most channels that a wave file may declare.
pub const MAX_CHANNEL_COUNT: usize = 8;

/// The little-endian unsigned integer of two bytes.
pub open spec fn le_u16(b0: u8, b1: u8) -> u16 {
    (b0 as int + 256 * b1 as int) as u16
}

/// The four bytes of `d` at `at` are `tag`.
pub open spec fn tag_at(d: Seq<u8>, at: int, tag: Seq<u8>) -> bool {
    d.subrange(at, at + 4) == tag
}

pub open spec fn riff_tag() -> Seq<u8> {
    seq![82u8, 73, 70, 70]
}

pub open spec fn wave_tag() -> Seq<u8> {
    seq![87u8, 65, 86, 69]
}

pub open spec fn fmt_tag() -> Seq<u8> {
    seq![102u8, 109, 116, 32]
}

pub open spec fn data_tag() -> Seq<u8> {
    seq![100u8, 97, 116, 97]
}

/// The unsigned integer of two bytes in the byte order `little` names.
pub open spec fn u16_in(b0: u8, b1: u8, little: bool) -> u16 {
    if little {
        le_u16(b0, b1)
    } else {
        le_u16(b1, b0)
    }
}

/// The unsigned integer of four bytes in the byte order `little` names.
pub open spec fn u32_in(b0: u8, b1: u8, b2: u8, b3: u8, little: bool) -> u32 {
    if little {
        le_u32(b0, b1, b2, b3)
    } else {
        le_u32(b3, b2, b1, b0)
    }
}

/// The signed sample of `bytes` bytes (one to four) at `at`, read as the machine reads it
/// in the byte order `little` names. A sample of three bytes is read as the `i32` of a zero
/// byte and its three bytes, shifted right by eight bits: in little-endian order its three
/// bytes, the last the most significant; in big-endian order only its first two bytes.
pub open spec fn sample_at(d: Seq<u8>, at: int, bytes: int, little: bool) -> i32 {
    if bytes == 1 {
        (d[at] as i8) as i32
    } else if little {
        if bytes == 2 {
            (d[at] as int + 256 * (d[at + 1] as i8) as int) as i32
        } else if bytes == 3 {
            (d[at] as int + 256 * d[at + 1] as int + 65536 * (d[at + 2] as i8) as int) as i32
        } else {
            (d[at] as int + 256 * d[at + 1] as int + 65536 * d[at + 2] as int + 16777216 * (d[at
                + 3] as i8) as int) as i32
        }
    } else {
        if bytes == 2 {
            (d[at + 1] as int + 256 * (d[at] as i8) as int) as i32
        } else if bytes == 3 {
            (d[at + 1] as int + 256 * d[at] as int) as i32
        } else {
            (d[at + 3] as int + 256 * d[at + 2] as int + 65536 * d[at + 1] as int + 16777216 * (
            d[at] as i8) as int) as i32
        }
    }
}

/// The samples of channel `c` of `frames` frames of `channels` samples of `bytes` bytes
/// each, from `start` on.
pub open spec fn wav_channel(
    d: Seq<u8>,
    start: int,
    frames: nat,
    channels: int,
    bytes: int,
    c: int,
    little: bool,
) -> Seq<i32> {
    Seq::new(frames, |f: int| sample_at(d, start + (f * channels + c) * bytes, bytes, little))
}

/// What a wave file holds.
pub struct RawView {
    pub samples_per_sec: u32,
    pub bits_per_sample: u16,
    pub channels: Seq<Seq<i32>>,
}

/// What the format chunk says.
pub struct WavFormat {
    pub samples_per_sec: u32,
    pub channels: int,
    pub bits_per_sample: u16,
    pub bytes: int,
    pub little: bool,
}

/// Reading the chunks from `pos` on, up to the data chunk: the samples of the first data
/// chunk, or `None` where a chunk header or the data chunk's samples do not lie wholly in
/// `d`, or where no data chunk comes before the end of `d`.
pub open spec fn wav_chunks(d: Seq<u8>, pos: int, fmt: WavFormat) -> Option<RawView>
    decreases d.len() - pos,
{
    if pos < 0 || pos + 8 > d.len() {
        None
    } else {
        let len = u32_in(d[pos + 4], d[pos + 5], d[pos + 6], d[pos + 7], fmt.little) as int;
        let start = pos + 8;
        if tag_at(d, pos, data_tag()) {
            let frames = len / (fmt.bytes * fmt.channels);
            if !(fmt.channels == 1 || fmt.channels == 2) {
                None
            } else if start + frames * fmt.channels * fmt.bytes > d.len() {
                None
            } else {
                Some(
                    RawView {
                        samples_per_sec: fmt.samples_per_sec,
                        bits_per_sample: fmt.bits_per_sample,
                        channels: Seq::new(
                            fmt.channels as nat,
                            |c: int|
                                wav_channel(
                                    d,
                                    start,
                                    frames as nat,
                                    fmt.channels,
                                    fmt.bytes,
                                    c,
                                    fmt.little,
                                ),
                        ),
                    },
                )
            }
        } else if start + len >= d.len() {
            None
        } else {
            wav_chunks(d, start + len, fmt)
        }
    }
}

/// Reading a wave file whose integers are in the byte order `little` names: its samples,
/// or `None` for bad input. Taken are PCM files (format
/// tag 1, format length 16) whose RIFF chunk lies within `d`, of one to eight channels, of
/// one to thirty-two bits per sample, whose block align is the bytes of a frame, and whose
/// first data chunk, of one or two channels, lies within `d`.
pub open spec fn wav(d: Seq<u8>, little: bool) -> Option<RawView> {
    if d.len() < 36 || !tag_at(d, 0, riff_tag()) || d.len() < 8 + u32_in(d[4], d[5], d[6], d[7], little)
        || !tag_at(d, 8, wave_tag()) || !tag_at(d, 12, fmt_tag()) {
        None
    } else if u16_in(d[20], d[21], little) != 1 || u32_in(d[16], d[17], d[18], d[19], little) != 16 {
        None
    } else {
        let channels = u16_in(d[22], d[23], little) as int;
        let bits = u16_in(d[34], d[35], little) as int;
        let bytes = (bits + 7) / 8;
        if channels > MAX_CHANNEL_COUNT || channels == 0 || bits == 0 || bits > 32 {
            None
        } else if u16_in(d[32], d[33], little) != bytes * channels {
            None
        } else {
            wav_chunks(
                d,
                36,
                WavFormat {
                    samples_per_sec: u32_in(d[24], d[25], d[26], d[27], little),
                    channels,
                    bits_per_sample: bits as u16,
                    bytes,
                    little,
                },
            )
        }
    }
}

/// The samples of a wave file of one or two channels.
pub struct Raw {
    samples_per_sec: u32,
    channel_count: usize,
    bits_per_sample: u16,
    first: Vec<i32>,
    second: Vec<i32>,
}

fn read_u16_in(b0: u8, b1: u8, little: bool) -> (r: u16)
    ensures
        r == u16_in(b0, b1, little),
{
    if little {
        (b0 as u16) + (b1 as u16) * 256
    } else {
        (b1 as u16) + (b0 as u16) * 256
    }
}

fn read_u32_in(b0: u8, b1: u8, b2: u8, b3: u8, little: bool) -> (r: u32)
    ensures
        r == u32_in(b0, b1, b2, b3, little),
{
    if little {
        (b0 as u32) + (b1 as u32) * 0x100 + (b2 as u32) * 0x10000 + (b3 as u32) * 0x1000000
    } else {
        (b3 as u32) + (b2 as u32) * 0x100 + (b1 as u32) * 0x10000 + (b0 as u32) * 0x1000000
    }
}

/// Whether the four bytes at `at` are `tag`.
fn has_tag(d: &[u8], at: usize, tag: [u8; 4]) -> (r: bool)
    requires
        at + 4 <= d@.len(),
    ensures
        r == tag_at(d@, at as int, tag@),
{
    let r: bool = d[at] == tag[0] && d[at + 1] == tag[1] && d[at + 2] == tag[2] && d[at + 3]
        == tag[3];
    proof {
        let s = d@.subrange(at as int, at + 4);
        if r {
            assert(s =~= tag@);
        } else {
            if s == tag@ {
                assert(s[0] == d@[at as int]);
                assert(s[1] == d@[at + 1]);
                assert(s[2] == d@[at + 2]);
                assert(s[3] == d@[at + 3]);
            }
        }
    }
    r
}

/// The sample of `bytes` bytes at `at`, in the byte order `little` names.
fn read_sample(d: &[u8], at: usize, bytes: usize, little: bool) -> (r: i32)
    requires
        1 <= bytes <= 4,
        at + bytes <= d@.len(),
    ensures
        r == sample_at(d@, at as int, bytes as int, little),
{
    if bytes == 1 {
        (d[at] as i8) as i32
    } else if little {
        if bytes == 2 {
            (d[at] as i32) + ((d[at + 1] as i8) as i32) * 256
        } else if bytes == 3 {
            (d[at] as i32) + (d[at + 1] as i32) * 256 + ((d[at + 2] as i8) as i32) * 65536
        } else {
            (d[at] as i32) + (d[at + 1] as i32) * 256 + (d[at + 2] as i32) * 65536 + ((d[at
                + 3] as i8) as i32) * 16777216
        }
    } else {
        let b0: i32 = d[at] as i32;
        let s0: i32 = (d[at] as i8) as i32;
        let b1: i32 = d[at + 1] as i32;
        if bytes == 2 {
            b1 + s0 * 256
        } else if bytes == 3 {
            b1 + b0 * 256
        } else {
            (d[at + 3] as i32) + (d[at + 2] as i32) * 256 + b1 * 65536 + s0 * 16777216
        }
    }
}

proof fn lemma_frame_offsets(f: int, channels: int, bytes: int)
    requires
        0 <= f,
        1 <= channels,
        1 <= bytes,
    ensures
        (f * channels) * bytes + channels * bytes == ((f + 1) * channels) * bytes,
        (f * channels + 1) * bytes == (f * channels) * bytes + bytes,
        0 <= (f * channels) * bytes,
{
    assert((f * channels) * bytes + channels * bytes == ((f + 1) * channels) * bytes)
        by (nonlinear_arith);
    assert((f * channels + 1) * bytes == (f * channels) * bytes + bytes) by (nonlinear_arith);
    assert(0 <= (f * channels) * bytes) by (nonlinear_arith)
        requires
            0 <= f,
            1 <= channels,
            1 <= bytes,
    ;
}

proof fn lemma_frames_fit(f: int, frames: int, channels: int, bytes: int)
    requires
        0 <= f < frames,
        1 <= channels,
        1 <= bytes,
    ensures
        ((f + 1) * channels) * bytes <= (frames * channels) * bytes,
{
    assert(((f + 1) * channels) * bytes <= (frames * channels) * bytes) by (nonlinear_arith)
        requires
            0 <= f < frames,
            1 <= channels,
            1 <= bytes,
    ;
}

/// The samples of the one or two channels of `frames` frames from `start` on.
fn read_frames(
    d: &[u8],
    start: usize,
    frames: usize,
    channels: usize,
    bytes: usize,
    little: bool,
) -> (r: (
    Vec<i32>,
    Vec<i32>,
))
    requires
        channels == 1 || channels == 2,
        1 <= bytes <= 4,
        start + (frames * channels) * bytes <= d@.len(),
    ensures
        r.0@ == wav_channel(d@, start as int, frames as nat, channels as int, bytes as int, 0, little),
        channels == 2 ==> r.1@ == wav_channel(
            d@,
            start as int,
            frames as nat,
            channels as int,
            bytes as int,
            1,
            little,
        ),
{
    let mut first: Vec<i32> = Vec::new();
    let mut second: Vec<i32> = Vec::new();
    let mut pos: usize = start;
    let mut f: usize = 0;
    let len: usize = d.len();
    assert((f * channels) * bytes == 0) by (nonlinear_arith)
        requires
            f == 0,
    ;
    while f < frames
        invariant
            len == d@.len(),
            channels == 1 || channels == 2,
            1 <= bytes <= 4,
            start + (frames * channels) * bytes <= d@.len(),
            f <= frames,
            pos == start + (f * channels) * bytes,
            first@ == wav_channel(d@, start as int, f as nat, channels as int, bytes as int, 0, little),
            channels == 2 ==> second@ == wav_channel(
                d@,
                start as int,
                f as nat,
                channels as int,
                bytes as int,
                1,
                little,
            ),
        decreases frames - f,
    {
        proof {
            lemma_frame_offsets(f as int, channels as int, bytes as int);
            lemma_frames_fit(f as int, frames as int, channels as int, bytes as int);
        }
        assert(pos + channels * bytes <= d@.len());
        assert(channels == 2 ==> channels * bytes == bytes + bytes);
        let s0: i32 = read_sample(d, pos, bytes, little);
        first.push(s0);
        if channels == 2 {
            let s1: i32 = read_sample(d, pos + bytes, bytes, little);
            second.push(s1);
        }
        pos = pos + channels * bytes;
        f = f + 1;
        proof {
            assert(first@ =~= wav_channel(
                d@,
                start as int,
                f as nat,
                channels as int,
                bytes as int,
                0,
                little,
            ));
            if channels == 2 {
                assert(second@ =~= wav_channel(
                    d@,
                    start as int,
                    f as nat,
                    channels as int,
                    bytes as int,
                    1,
                    little,
                ));
            }
        }
    }
    (first, second)
}

impl Raw {
    pub closed spec fn view(&self) -> RawView {
        RawView {
            samples_per_sec: self.samples_per_sec,
            bits_per_sample: self.bits_per_sample,
            channels: if self.channel_count == 1 {
                seq![self.first@]
            } else {
                seq![self.first@, self.second@]
            },
        }
    }

    /// `r` is what `d`, its integers in the byte order `little` names, reads as.
    pub open spec fn read_as(r: Option<Self>, d: Seq<u8>, little: bool) -> bool {
        match r {
            None => wav(d, little) is None,
            Some(raw) => wav(d, little) == Some(raw.view()),
        }
    }

    /// Reads a wave file, its integers in the machine's byte order: its samples, or `None`
    /// for bad input (see `wav`).
    pub fn new_from_wav(d: &[u8]) -> (r: Option<Self>)
        ensures
            Self::read_as(r, d@, true) || Self::read_as(r, d@, false),
    {
        let little: bool = machine_is_little_endian();
        Self::new_from_wav_in_order(d, little)
    }

    /// Reads a wave file whose integers are in the byte order `little` names: its samples,
    /// or `None` for bad input (see `wav`).
    pub fn new_from_wav_in_order(d: &[u8], little: bool) -> (r: Option<Self>)
        ensures
            Self::read_as(r, d@, little),
    {
        if d.len() < 36 {
            return None;
        }
        if !has_tag(d, 0, [82u8, 73, 70, 70]) {
            return None;
        }
        let riff_chunk_size: u32 = read_u32_in(d[4], d[5], d[6], d[7], little);
        if (d.len() as u64) < 8 + (riff_chunk_size as u64) {
            return None;
        }
        if !has_tag(d, 8, [87u8, 65, 86, 69]) || !has_tag(d, 12, [102u8, 109, 116, 32]) {
            return None;
        }
        let wave_fmt_len: u32 = read_u32_in(d[16], d[17], d[18], d[19], little);
        let wave_fmt_tag: u16 = read_u16_in(d[20], d[21], little);
        if wave_fmt_tag != 1 || wave_fmt_len != 16 {
            return None;
        }
        let channel_count: usize = read_u16_in(d[22], d[23], little) as usize;
        let samples_per_sec: u32 = read_u32_in(d[24], d[25], d[26], d[27], little);
        let block_align: u16 = read_u16_in(d[32], d[33], little);
        let bits_per_sample: u16 = read_u16_in(d[34], d[35], little);
        if channel_count > MAX_CHANNEL_COUNT || channel_count == 0 || bits_per_sample == 0
            || bits_per_sample > 32 {
            return None;
        }
        let bytes_per_sample: usize = ((bits_per_sample + 7) / 8) as usize;
        let frame_bytes: usize = block_align as usize;
        assert(bytes_per_sample * channel_count <= 4 * 8) by (nonlinear_arith)
            requires
                bytes_per_sample <= 4,
                channel_count <= 8,
        ;
        if frame_bytes != bytes_per_sample * channel_count {
            return None;
        }
        let ghost fmt = WavFormat {
            samples_per_sec,
            channels: channel_count as int,
            bits_per_sample,
            bytes: bytes_per_sample as int,
            little,
        };
        assert(wav(d@, little) == wav_chunks(d@, 36, fmt));
        let mut d_pos: usize = 36;
        while d_pos < d.len()
            invariant
                wav(d@, little) == wav_chunks(d@, d_pos as int, fmt),
                frame_bytes == bytes_per_sample * channel_count,
                1 <= bytes_per_sample <= 4,
                1 <= channel_count <= MAX_CHANNEL_COUNT,
                fmt.channels == channel_count,
                fmt.bytes == bytes_per_sample,
                fmt.samples_per_sec == samples_per_sec,
                fmt.bits_per_sample == bits_per_sample,
                fmt.little == little,
            decreases d@.len() - d_pos,
        {
            if d.len() - d_pos < 8 {
                return None;
            }
            let next_len: usize = read_u32_in(d[d_pos + 4], d[d_pos + 5], d[d_pos + 6], d[d_pos
                + 7], little) as usize;
            let is_data: bool = has_tag(d, d_pos, [100u8, 97, 116, 97]);
            d_pos = d_pos + 8;
            if is_data {
                if !(channel_count == 1 || channel_count == 2) {
                    return None;
                }
                let num_frames: usize = next_len / frame_bytes;
                assert((num_frames * channel_count) * bytes_per_sample == num_frames * frame_bytes)
                    by (nonlinear_arith)
                    requires
                        frame_bytes == bytes_per_sample * channel_count,
                ;
                assert(num_frames * frame_bytes <= next_len) by (nonlinear_arith)
                    requires
                        num_frames == next_len / frame_bytes,
                        frame_bytes >= 1,
                ;
                if num_frames * frame_bytes > d.len() - d_pos {
                    return None;
                }
                let frames: (Vec<i32>, Vec<i32>) = read_frames(
                    d,
                    d_pos,
                    num_frames,
                    channel_count,
                    bytes_per_sample,
                    little,
                );
                let raw = Raw {
                    samples_per_sec,
                    channel_count,
                    bits_per_sample,
                    first: frames.0,
                    second: frames.1,
                };
                proof {
                    let v = wav(d@, little).unwrap();
                    assert(raw.view().channels =~= v.channels);
                }
                return Some(raw);
            }
            if next_len >= d.len() - d_pos {
                return None;
            }
            d_pos = d_pos + next_len;
        }
        None
    }

    /// The file's sampling rate is 48 kHz.
    pub fn is_ideal_sample_rate(&self) -> (r: bool)
        ensures
            r == (self.view().samples_per_sec == 48000),
    {
        self.samples_per_sec == 48000
    }

    /// Bits per sample, which give the scale of the samples.
    pub fn bits_per_sample(&self) -> (r: u16)
        ensures
            r == self.view().bits_per_sample,
    {
        self.bits_per_sample
    }

    /// The samples of the first channel.
    pub fn first_channel(&self) -> (r: &Vec<i32>)
        ensures
            r@ == self.view().channels[0],
    {
        &self.first
    }

    /// The samples of the second channel of a stereo file, else none.
    pub fn second_channel(&self) -> (r: Option<&Vec<i32>>)
        ensures
            r is Some <==> self.view().channels.len() == 2,
            r matches Some(v) ==> v@ == self.view().channels[1],
    {
        if self.channel_count == 1 {
            None
        } else {
            Some(&self.second)
        }
    }

    /// The samples as interleaved stereo: a mono file's samples each twice, a stereo file's
    /// two channels in turn; `None` for two channels of unequal length.
    pub fn get_stereo(&self) -> (r: Option<Vec<i32>>)
        ensures
            self.view().channels.len() == 1 ==> (r matches Some(v) && v@ == interleave_spec(
                self.view().channels[0],
                self.view().channels[0],
            )),
            self.view().channels.len() == 2 ==> (r is Some <==> self.view().channels[0].len()
                == self.view().channels[1].len()),
            self.view().channels.len() == 2 ==> (r matches Some(v) ==> v@ == interleave_spec(
                self.view().channels[0],
                self.view().channels[1],
            )),
    {
        if self.channel_count == 1 {
            Some(interleave(&self.first, &self.first))
        } else {
            if self.first.len() != self.second.len() {
                return None;
            }
            Some(interleave(&self.first, &self.second))
        }
    }
}

/// The samples of `a` and `b` in turn: `a[0], b[0], a[1], b[1], ...`.
pub open spec fn interleave_spec(a: Seq<i32>, b: Seq<i32>) -> Seq<i32> {
    Seq::new(2 * a.len(), |i: int| if i % 2 == 0 { a[i / 2] } else { b[i / 2] })
}

/// Interleaves two channels of equal length.
pub fn interleave(a: &Vec<i32>, b: &Vec<i32>) -> (r: Vec<i32>)
    requires
        a@.len() == b@.len(),
    ensures
        r@ == interleave_spec(a@, b@),
{
    let mut r: Vec<i32> = Vec::new();
    let mut i: usize = 0;
    while i < a.len()
        invariant
            a@.len() == b@.len(),
            i <= a@.len(),
            r@ == interleave_spec(a@.take(i as int), b@.take(i as int)),
        decreases a@.len() - i,
    {
        r.push(a[i]);
        r.push(b[i]);
        i += 1;
        assert(r@ =~= interleave_spec(a@.take(i as int), b@.take(i as int)));
    }
    assert(a@.take(i as int) =~= a@);
    assert(b@.take(i as int) =~= b@);
    r
}

} // verus!
