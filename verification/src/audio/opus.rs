//! Opus audio in an Ogg file: the identification and comment headers, then the audio pages,
//! whose segments make up the Opus packets.

use vstd::prelude::*;

use crate::byte_order::{machine_is_little_endian, u16_bytes, u16_to_bytes};

verus! {

/// What a page header is, as far as this reader cares.
#[derive(Debug, Clone, Copy, PartialEq, Eq)]
pub enum OggPageHeaderAnalysisResult {
    InvalidPage,
    IdentificationHeader([u8; 4]),
    CommentHeader,
    AudioDataPage(u32),
    AudioDataPageContinuation(u32),
    AudioDataPageFinal(u32),
    AudioDataPageContinuationFinal(u32),
}

/// The kinds of page that `ogg_page_kind` tells apart.
pub enum OggPageKind {
    Invalid,
    Identification,
    Comment,
    Audio { sequence: u32, continuation: bool, last: bool },
}

/// The little-endian unsigned integer of four bytes.
pub open spec fn le_u32(b0: u8, b1: u8, b2: u8, b3: u8) -> u32 {
    (b0 as int + b1 as int * 0x100 + b2 as int * 0x10000 + b3 as int * 0x1000000) as u32
}

/// The page sequence number of a page header.
pub open spec fn page_sequence_number(d: Seq<u8>) -> u32 {
    le_u32(d[18], d[19], d[20], d[21])
}

/// The granule position of a page header is zero.
pub open spec fn granule_is_zero(d: Seq<u8>) -> bool {
    forall|i: int| 6 <= i < 14 ==> d[i] == 0
}

/// The header starts with the capture pattern "OggS" and stream structure version 0.
pub open spec fn capture_ok(d: Seq<u8>) -> bool {
    d[0] == 79 && d[1] == 103 && d[2] == 103 && d[3] == 83 && d[4] == 0
}

/// The header belongs to the bitstream with the given serial number.
pub open spec fn serial_is(d: Seq<u8>, serial: Seq<u8>) -> bool {
    d[14] == serial[0] && d[15] == serial[1] && d[16] == serial[2] && d[17] == serial[3]
}

/// What the 26-byte page header `d` is, for the bitstream `serial` once it is known: the
/// identification header (type 2, granule and sequence number zero), the comment header
/// (type 0, granule zero, sequence number 1), or an audio page (type 0 continuing no
/// packet, 1 continuing one, 4 or 5 the same as the last page; granule not zero).
pub open spec fn ogg_page_kind(d: Seq<u8>, serial: Option<Seq<u8>>) -> OggPageKind {
    if !capture_ok(d) {
        OggPageKind::Invalid
    } else if d[5] == 2 {
        if !granule_is_zero(d) || page_sequence_number(d) != 0 {
            OggPageKind::Invalid
        } else {
            OggPageKind::Identification
        }
    } else if d[5] == 0 || d[5] == 1 || d[5] == 4 || d[5] == 5 {
        match serial {
            None => OggPageKind::Invalid,
            Some(s) => if !serial_is(d, s) {
                OggPageKind::Invalid
            } else if granule_is_zero(d) {
                if d[5] == 0 && page_sequence_number(d) == 1 {
                    OggPageKind::Comment
                } else {
                    OggPageKind::Invalid
                }
            } else {
                OggPageKind::Audio {
                    sequence: page_sequence_number(d),
                    continuation: d[5] == 1 || d[5] == 5,
                    last: d[5] == 4 || d[5] == 5,
                }
            },
        }
    } else {
        OggPageKind::Invalid
    }
}

/// `r` is the analysis result that stands for the page kind `k` of header `d`.
pub open spec fn stands_for(r: OggPageHeaderAnalysisResult, k: OggPageKind, d: Seq<u8>) -> bool {
    match k {
        OggPageKind::Invalid => r is InvalidPage,
        OggPageKind::Identification => r matches OggPageHeaderAnalysisResult::IdentificationHeader(
            s,
        ) && s@ == d.subrange(14, 18),
        OggPageKind::Comment => r is CommentHeader,
        OggPageKind::Audio { sequence, continuation, last } => r == if continuation {
            if last {
                OggPageHeaderAnalysisResult::AudioDataPageContinuationFinal(sequence)
            } else {
                OggPageHeaderAnalysisResult::AudioDataPageContinuation(sequence)
            }
        } else {
            if last {
                OggPageHeaderAnalysisResult::AudioDataPageFinal(sequence)
            } else {
                OggPageHeaderAnalysisResult::AudioDataPage(sequence)
            }
        },
    }
}

fn read_le_u32(b0: u8, b1: u8, b2: u8, b3: u8) -> (r: u32)
    ensures
        r == le_u32(b0, b1, b2, b3),
{
    (b0 as u32) + (b1 as u32) * 0x100 + (b2 as u32) * 0x10000 + (b3 as u32) * 0x1000000
}

/// Tells what a page header is; `serial_num` is the serial number of the stream once the
/// identification header has given it.
pub fn analyze_ogg_page_header(data: &[u8; 26], serial_num: Option<&[u8; 4]>) -> (r:
    OggPageHeaderAnalysisResult)
    ensures
        stands_for(
            r,
            ogg_page_kind(
                data@,
                match serial_num {
                    Some(s) => Some(s@),
                    None => None,
                },
            ),
            data@,
        ),
{
    if !(data[0] == 79 && data[1] == 103 && data[2] == 103 && data[3] == 83) {
        return OggPageHeaderAnalysisResult::InvalidPage;
    }
    if data[4] != 0 {
        return OggPageHeaderAnalysisResult::InvalidPage;
    }
    let granule_zero: bool = data[6] == 0 && data[7] == 0 && data[8] == 0 && data[9] == 0
        && data[10] == 0 && data[11] == 0 && data[12] == 0 && data[13] == 0;
    assert(granule_zero == granule_is_zero(data@));
    let page_sequence_num: u32 = read_le_u32(data[18], data[19], data[20], data[21]);
    let header_type: u8 = data[5];
    if header_type == 2 {
        if !granule_zero {
            return OggPageHeaderAnalysisResult::InvalidPage;
        }
        if !(data[18] == 0 && data[19] == 0 && data[20] == 0 && data[21] == 0) {
            return OggPageHeaderAnalysisResult::InvalidPage;
        }
        let serial: [u8; 4] = [data[14], data[15], data[16], data[17]];
        assert(serial@ =~= data@.subrange(14, 18));
        return OggPageHeaderAnalysisResult::IdentificationHeader(serial);
    }
    if !(header_type == 0 || header_type == 1 || header_type == 4 || header_type == 5) {
        return OggPageHeaderAnalysisResult::InvalidPage;
    }
    match serial_num {
        None => OggPageHeaderAnalysisResult::InvalidPage,
        Some(comp) => {
            if !(data[14] == comp[0] && data[15] == comp[1] && data[16] == comp[2] && data[17]
                == comp[3]) {
                return OggPageHeaderAnalysisResult::InvalidPage;
            }
            if granule_zero {
                if header_type == 0 && data[18] == 1 && data[19] == 0 && data[20] == 0 && data[21]
                    == 0 {
                    OggPageHeaderAnalysisResult::CommentHeader
                } else {
                    OggPageHeaderAnalysisResult::InvalidPage
                }
            } else if header_type == 0 {
                OggPageHeaderAnalysisResult::AudioDataPage(page_sequence_num)
            } else if header_type == 1 {
                OggPageHeaderAnalysisResult::AudioDataPageContinuation(page_sequence_num)
            } else if header_type == 4 {
                OggPageHeaderAnalysisResult::AudioDataPageFinal(page_sequence_num)
            } else {
                OggPageHeaderAnalysisResult::AudioDataPageContinuationFinal(page_sequence_num)
            }
        },
    }
}

/// What an Opus stream holds: the header fields, then the length of each packet and the
/// packets' bytes one after the other.
pub struct OpusView {
    pub id: u64,
    pub stereo: bool,
    pub pre_skip: u16,
    pub output_gain: i16,
    pub packet_len: Seq<u16>,
    pub packet_data: Seq<u8>,
}

/// Opus audio read from an Ogg file. `output_gain` is the header's gain in units of
/// 1/256 dB; the factor it stands for, 10^(gain/5120), is a float.
pub struct OpusData {
    id: u64,
    stereo: bool,
    pre_skip: u16,
    output_gain: i16,
    packet_len: Vec<u16>,
    packet_data: Vec<u8>,
}

/// The sum of some bytes.
pub open spec fn byte_sum(s: Seq<u8>) -> nat
    decreases s.len(),
{
    if s.len() == 0 {
        0
    } else {
        byte_sum(s.drop_last()) + s.last() as nat
    }
}

/// The packet lengths that a page's segment table completes, and the length of the packet
/// left open at its end, starting from an open packet of length `open`; `None` where a
/// length passes 65535 (a reader of the stream cannot go on there).
pub open spec fn segment_packets(segments: Seq<u8>, open: int) -> Option<(Seq<u16>, int)>
    decreases segments.len(),
{
    if segments.len() == 0 {
        Some((seq![], open))
    } else {
        match segment_packets(segments.drop_last(), open) {
            None => None,
            Some((lens, length)) => {
                let d = segments.last();
                let next = length + d;
                if next > u16::MAX {
                    None
                } else if d != 255 {
                    Some((lens.push(next as u16), 0))
                } else {
                    Some((lens, next))
                }
            },
        }
    }
}

/// The result of reading audio pages from `index` on: `None` where the reader cannot go on
/// (a page header runs past the data, or a count overflows); else the stream read so far.
pub open spec fn audio_pages(
    data: Seq<u8>,
    serial: Seq<u8>,
    index: int,
    count: int,
    open: int,
    v: OpusView,
) -> Option<Option<OpusView>>
    decreases data.len() - index,
{
    if index < 0 || index + 26 > data.len() {
        None
    } else {
        match ogg_page_kind(data.subrange(index, index + 26), Some(serial)) {
            OggPageKind::Audio { sequence, continuation, last } => {
                if sequence != count {
                    Some(Some(v))
                } else if count + 1 > u32::MAX {
                    None
                } else if continuation != (open > 0) {
                    Some(Some(v))
                } else {
                    let i1 = index + 26;
                    if data.len() - i1 < 1 {
                        Some(Some(v))
                    } else {
                        let ps = data[i1] as int;
                        let i2 = i1 + 1;
                        if data.len() - i2 < ps {
                            Some(Some(v))
                        } else {
                            let segments = data.subrange(i2, i2 + ps);
                            match segment_packets(segments, open) {
                                None => None,
                                Some((lens, next_open)) => {
                                    let dl = byte_sum(segments);
                                    let i3 = i2 + ps;
                                    if data.len() - i3 < dl {
                                        Some(None)
                                    } else {
                                        let v2 = OpusView {
                                            packet_len: v.packet_len + lens,
                                            packet_data: v.packet_data + data.subrange(i3, i3 + dl),
                                            ..v
                                        };
                                        if last {
                                            Some(Some(v2))
                                        } else {
                                            audio_pages(data, serial, i3 + dl, count + 1, next_open, v2)
                                        }
                                    }
                                },
                            }
                        }
                    }
                }
            },
            _ => Some(Some(v)),
        }
    }
}

/// The bytes of the Opus identification header's magic signature, "OpusHead".
pub open spec fn opus_head() -> Seq<u8> {
    seq![79u8, 112, 117, 115, 72, 101, 97, 100]
}

/// The result of reading an Opus stream from an Ogg file: `None` where the reader cannot go
/// on (a page header runs past the data, or a count overflows); `Some(None)` where it rejects
/// the data; else the stream. The first page must be the identification header with one
/// segment holding the "OpusHead" packet (version 1, one or two channels); the second the
/// comment header; then audio pages with sequence numbers from 2, up to the last page or
/// the first page that does not continue the stream.
pub open spec fn ogg_opus(data: Seq<u8>, id: u64) -> Option<Option<OpusView>> {
    if data.len() < 26 {
        None
    } else if !(ogg_page_kind(data.subrange(0, 26), None) is Identification) {
        Some(None)
    } else if data.len() - 26 < 2 || data[26] != 1 {
        Some(None)
    } else {
        let serial = data.subrange(14, 18);
        let segment_len = data[27] as int;
        if data.len() - 28 < segment_len || segment_len < 19 {
            Some(None)
        } else if data.subrange(28, 36) != opus_head() || data[36] != 1 || !(data[37] == 1
            || data[37] == 2) {
            Some(None)
        } else {
            let v = OpusView {
                id,
                stereo: data[37] == 2,
                pre_skip: (data[38] as int + data[39] as int * 0x100) as u16,
                output_gain: (data[40] as int + data[41] as int * 0x100) as i16,
                packet_len: seq![],
                packet_data: seq![],
            };
            let i2 = 28 + segment_len;
            if i2 + 26 > data.len() {
                None
            } else if !(ogg_page_kind(data.subrange(i2, i2 + 26), Some(serial)) is Comment) {
                Some(None)
            } else {
                let i3 = i2 + 26;
                if data.len() - i3 < 1 {
                    Some(None)
                } else {
                    let ps = data[i3] as int;
                    let i4 = i3 + 1;
                    if data.len() - i4 < ps {
                        Some(None)
                    } else {
                        let comment_size = byte_sum(data.subrange(i4, i4 + ps));
                        let i5 = i4 + ps;
                        if data.len() - i5 < comment_size {
                            Some(None)
                        } else {
                            audio_pages(data, serial, i5 + comment_size, 2, 0, v)
                        }
                    }
                }
            }
        }
    }
}

/// `after` is `before` with the stream `v` appended as `add_to_vec` writes it, its counts
/// and lengths in the byte order `little` names.
pub open spec fn stream_appended(before: Seq<u8>, after: Seq<u8>, v: OpusView, little: bool) -> bool {
    let o = before.len() as int;
    let w = (usize::BITS / 8) as int;
    let n = v.packet_len.len() as int;
    &&& after.len() == o + 1 + 2 * w + 2 * n + v.packet_data.len()
    &&& after.take(o) == before
    &&& after[o] == (if v.stereo { 1u8 } else { 0u8 })
    &&& after.subrange(o + 1, o + 1 + w) == usize_bytes(n as nat, little)
    &&& is_u16_bytes(after.subrange(o + 1 + w, o + 1 + w + 2 * n), v.packet_len, little)
    &&& after.subrange(o + 1 + w + 2 * n, o + 1 + 2 * w + 2 * n) == usize_bytes(
        v.packet_data.len(),
        little,
    )
    &&& after.skip(o + 1 + 2 * w + 2 * n) == v.packet_data
}

/// The 26 bytes of a page header at `index`.
fn page_header_at(data: &[u8], index: usize) -> (r: [u8; 26])
    requires
        index + 26 <= data@.len(),
    ensures
        r@ == data@.subrange(index as int, index + 26),
{
    let len: usize = data.len();
    let mut header: [u8; 26] = [0u8; 26];
    let mut i: usize = 0;
    while i < 26
        invariant
            i <= 26,
            len == data@.len(),
            index + 26 <= len,
            header@.len() == 26,
            forall|j: int| 0 <= j < i ==> header@[j] == data@[index + j],
        decreases 26 - i,
    {
        header[i] = data[index + i];
        i += 1;
    }
    assert(header@ =~= data@.subrange(index as int, index + 26));
    header
}

proof fn lemma_byte_sum_bound(s: Seq<u8>)
    ensures
        0 <= byte_sum(s) <= 255 * s.len(),
    decreases s.len(),
{
    if s.len() > 0 {
        lemma_byte_sum_bound(s.drop_last());
    }
}

impl OpusData {
    pub closed spec fn view(&self) -> OpusView {
        OpusView {
            id: self.id,
            stereo: self.stereo,
            pre_skip: self.pre_skip,
            output_gain: self.output_gain,
            packet_len: self.packet_len@,
            packet_data: self.packet_data@,
        }
    }

    /// Reads the Opus stream of an Ogg file: `None` where the reader would run past the data
    /// or a count would overflow; `Some(None)` for data that is not such a stream; else the
    /// stream (see `ogg_opus`).
    pub fn try_create_from_ogg_file(data: &[u8], id: u64) -> (r: Option<Option<Self>>)
        ensures
            r is None <==> ogg_opus(data@, id) is None,
            r matches Some(x) ==> (x is None <==> ogg_opus(data@, id).unwrap() is None),
            r matches Some(x) ==> (x matches Some(o) ==> o.view() == ogg_opus(
                data@,
                id,
            ).unwrap().unwrap()),
    {
        let ghost d = data@;
        let mut index: usize = 0;
        if data.len() < 26 {
            return None;
        }
        let first_header = page_header_at(data, index);
        let first_page_result = analyze_ogg_page_header(&first_header, None);
        let serial_num: [u8; 4] = match first_page_result {
            OggPageHeaderAnalysisResult::IdentificationHeader(arr) => arr,
            _ => {
                return Some(None);
            },
        };
        assert(serial_num@ =~= d.subrange(14, 18)) by {
            assert(first_header@.subrange(14, 18) =~= d.subrange(14, 18));
        }
        index += 26;
        let mut remaining_bytes: usize = data.len() - 26;
        if remaining_bytes < 2 {
            return Some(None);
        }
        let page_segments: u8 = data[index];
        if page_segments != 1 {
            return Some(None);
        }
        let segment_len: usize = data[index + 1] as usize;
        index += 2;
        remaining_bytes -= 2;
        if remaining_bytes < segment_len {
            return Some(None);
        }
        if segment_len < 19 {
            return Some(None);
        }
        if !(data[index] == 79 && data[index + 1] == 112 && data[index + 2] == 117 && data[index
            + 3] == 115 && data[index + 4] == 72 && data[index + 5] == 101 && data[index + 6]
            == 97 && data[index + 7] == 100) {
            assert(data@.subrange(28, 36) != opus_head()) by {
                if data@.subrange(28, 36) == opus_head() {
                    assert(data@[28] == data@.subrange(28, 36)[0]);
                    assert(data@[29] == data@.subrange(28, 36)[1]);
                    assert(data@[30] == data@.subrange(28, 36)[2]);
                    assert(data@[31] == data@.subrange(28, 36)[3]);
                    assert(data@[32] == data@.subrange(28, 36)[4]);
                    assert(data@[33] == data@.subrange(28, 36)[5]);
                    assert(data@[34] == data@.subrange(28, 36)[6]);
                    assert(data@[35] == data@.subrange(28, 36)[7]);
                }
            }
            return Some(None);
        }
        assert(data@.subrange(28, 36) =~= opus_head());
        if data[index + 8] != 1 {
            return Some(None);
        }
        let stereo: bool = match data[index + 9] {
            1 => false,
            2 => true,
            _ => {
                return Some(None);
            },
        };
        let pre_skip: u16 = (data[index + 10] as u16) + (data[index + 11] as u16) * 0x100;
        let output_gain: i16 = ((data[index + 12] as u16) + (data[index + 13] as u16) * 0x100) as i16;
        let mut opus_data = OpusData {
            id,
            stereo,
            pre_skip,
            output_gain,
            packet_len: Vec::new(),
            packet_data: Vec::new(),
        };
        assert(opus_data.view() == OpusView {
            id,
            stereo: d[37] == 2,
            pre_skip: (d[38] as int + d[39] as int * 0x100) as u16,
            output_gain: (d[40] as int + d[41] as int * 0x100) as i16,
            packet_len: seq![],
            packet_data: seq![],
        }) by {
            assert(opus_data.packet_len@ =~= Seq::<u16>::empty());
            assert(opus_data.packet_data@ =~= Seq::<u8>::empty());
        }
        index += segment_len;
        remaining_bytes -= segment_len;
        if remaining_bytes < 26 {
            return None;
        }
        let second_header = page_header_at(data, index);
        let second_page_result = analyze_ogg_page_header(&second_header, Some(&serial_num));
        match second_page_result {
            OggPageHeaderAnalysisResult::CommentHeader => {},
            _ => {
                return Some(None);
            },
        }
        index += 26;
        remaining_bytes -= 26;
        if remaining_bytes < 1 {
            return Some(None);
        }
        let page_segments: usize = data[index] as usize;
        index += 1;
        remaining_bytes -= 1;
        if remaining_bytes < page_segments {
            return Some(None);
        }
        let len: usize = data.len();
        let mut comment_size: usize = 0;
        let mut k: usize = 0;
        while k < page_segments
            invariant
                k <= page_segments,
                page_segments <= 255,
                len == data@.len(),
                index + page_segments <= len,
                comment_size == byte_sum(data@.subrange(index as int, index + k)),
                comment_size <= 255 * k,
            decreases page_segments - k,
        {
            proof {
                assert(data@.subrange(index as int, index + k + 1).drop_last() =~= data@.subrange(
                    index as int,
                    index + k,
                ));
            }
            comment_size += data[index + k] as usize;
            k += 1;
        }
        index += page_segments;
        remaining_bytes -= page_segments;
        if remaining_bytes < comment_size {
            return Some(None);
        }
        index += comment_size;
        remaining_bytes -= comment_size;
        assert(ogg_opus(d, id) == audio_pages(d, serial_num@, index as int, 2, 0, opus_data.view()));
        let mut page_sequence_count: u32 = 2;
        let mut packet_length: u16 = 0;
        loop
            invariant_except_break
                ogg_opus(d, id) == audio_pages(
                    d,
                    serial_num@,
                    index as int,
                    page_sequence_count as int,
                    packet_length as int,
                    opus_data.view(),
                ),
            invariant
                index + remaining_bytes == len,
                len == data@.len(),
                serial_num@ == d.subrange(14, 18),
                data@ == d,
            ensures
                ogg_opus(d, id) == Some(Some(opus_data.view())),
            decreases data@.len() - index,
        {
            let ghost v = opus_data.view();
            if remaining_bytes < 26 {
                return None;
            }
            let header = page_header_at(data, index);
            let page_result = analyze_ogg_page_header(&header, Some(&serial_num));
            let page_info: (u32, bool, bool) = match page_result {
                OggPageHeaderAnalysisResult::AudioDataPage(psn) => (psn, false, false),
                OggPageHeaderAnalysisResult::AudioDataPageContinuation(psn) => (psn, true, false),
                OggPageHeaderAnalysisResult::AudioDataPageFinal(psn) => (psn, false, true),
                OggPageHeaderAnalysisResult::AudioDataPageContinuationFinal(psn) => (
                    psn,
                    true,
                    true,
                ),
                _ => {
                    return Some(Some(opus_data));
                },
            };
            let page_sequence_num: u32 = page_info.0;
            let is_continuation: bool = page_info.1;
            let is_final: bool = page_info.2;
            if page_sequence_num != page_sequence_count {
                return Some(Some(opus_data));
            }
            if page_sequence_count == u32::MAX {
                return None;
            }
            page_sequence_count += 1;
            if is_continuation != (packet_length > 0) {
                return Some(Some(opus_data));
            }
            index += 26;
            remaining_bytes -= 26;
            if remaining_bytes < 1 {
                return Some(Some(opus_data));
            }
            let page_segments: usize = data[index] as usize;
            index += 1;
            remaining_bytes -= 1;
            if remaining_bytes < page_segments {
                return Some(Some(opus_data));
            }
            let ghost open0 = packet_length as int;
            let ghost lens0 = opus_data.packet_len@;
            assert(segment_packets(data@.subrange(index as int, index + page_segments), open0)
                is None ==> ogg_opus(d, id) is None);
            let mut data_length: usize = 0;
            let mut k: usize = 0;
            while k < page_segments
                invariant
                    k <= page_segments,
                    page_segments <= 255,
                    len == data@.len(),
                    index + page_segments <= len,
                    data_length == byte_sum(data@.subrange(index as int, index + k)),
                    data_length <= 255 * k,
                    segment_packets(data@.subrange(index as int, index + k), open0) == Some(
                        (opus_data.packet_len@.skip(lens0.len() as int), packet_length as int),
                    ),
                    opus_data.packet_len@.len() >= lens0.len(),
                    opus_data.packet_len@.take(lens0.len() as int) == lens0,
                    opus_data.packet_data@ == v.packet_data,
                    opus_data.id == v.id,
                    opus_data.stereo == v.stereo,
                    opus_data.pre_skip == v.pre_skip,
                    opus_data.output_gain == v.output_gain,
                    data@ == d,
                    segment_packets(data@.subrange(index as int, index + page_segments), open0)
                        is None ==> ogg_opus(d, id) is None,
                decreases page_segments - k,
            {
                let seg: u8 = data[index + k];
                proof {
                    let s = data@.subrange(index as int, index + k + 1);
                    assert(s.drop_last() =~= data@.subrange(index as int, index + k));
                    assert(data@.subrange(index as int, index + page_segments).take((k + 1) as int)
                        =~= s);
                }
                if (packet_length as u32) + (seg as u32) > 0xFFFF {
                    proof {
                        let whole = data@.subrange(index as int, index + page_segments);
                        if segment_packets(whole, open0) is Some {
                            lemma_segment_packets_prefix(whole, (k + 1) as int, open0);
                        }
                    }
                    return None;
                }
                data_length += seg as usize;
                packet_length += seg as u16;
                if seg != 255 {
                    opus_data.packet_len.push(packet_length);
                    packet_length = 0;
                }
                k += 1;
                proof {
                    assert(opus_data.packet_len@.take(lens0.len() as int) =~= lens0);
                    assert(opus_data.packet_len@.skip(lens0.len() as int) =~= segment_packets(
                        data@.subrange(index as int, index + k),
                        open0,
                    ).unwrap().0);
                }
            }
            assert(opus_data.packet_len@ =~= lens0 + opus_data.packet_len@.skip(lens0.len() as int));
            let ghost seg_start = index as int;
            index += page_segments;
            remaining_bytes -= page_segments;
            if remaining_bytes < data_length {
                return Some(None);
            }
            let ghost before_data = opus_data.packet_data@;
            let mut k: usize = 0;
            while k < data_length
                invariant
                    k <= data_length,
                    len == data@.len(),
                    index + data_length <= len,
                    opus_data.packet_data@ == before_data + data@.subrange(index as int, index + k),
                    opus_data.packet_len@ == lens0 + segment_packets(
                        data@.subrange(seg_start, seg_start + page_segments),
                        open0,
                    ).unwrap().0,
                    opus_data.id == v.id,
                    opus_data.stereo == v.stereo,
                    opus_data.pre_skip == v.pre_skip,
                    opus_data.output_gain == v.output_gain,
                decreases data_length - k,
            {
                opus_data.packet_data.push(data[index + k]);
                k += 1;
                assert(opus_data.packet_data@ =~= before_data + data@.subrange(
                    index as int,
                    index + k,
                ));
            }
            index += data_length;
            remaining_bytes -= data_length;
            if is_final {
                break ;
            }
        }
        Some(Some(opus_data))
    }

    /// Reads the Opus stream of an Ogg file; `None` for data that is not one (see
    /// `ogg_opus`, whose `None` cases, where the reader would run past the data or a count
    /// would overflow, are left out).
    pub fn create_from_ogg_file(data: &[u8], id: u64) -> (r: Option<Self>)
        requires
            ogg_opus(data@, id) is Some,
        ensures
            r is None <==> ogg_opus(data@, id).unwrap() is None,
            r matches Some(o) ==> o.view() == ogg_opus(data@, id).unwrap().unwrap(),
    {
        match Self::try_create_from_ogg_file(data, id) {
            Some(r) => r,
            None => None,
        }
    }

    /// The stream as data: whether it is stereo (1) or not (0), the number of packets, the
    /// number of packet bytes, and the packet lengths (two bytes each, all in the machine's
    /// byte order) followed by the packets' bytes.
    pub fn to_data(&self) -> (r: (u8, usize, usize, Vec<u8>))
        ensures
            r.0 == (if self.view().stereo { 1u8 } else { 0u8 }),
            r.1 == self.view().packet_len.len(),
            r.2 == self.view().packet_data.len(),
            r.3@.len() == 2 * r.1 + r.2,
            is_u16_bytes(r.3@.take(2 * r.1), self.view().packet_len, true) || is_u16_bytes(
                r.3@.take(2 * r.1),
                self.view().packet_len,
                false,
            ),
            r.3@.skip(2 * r.1) == self.view().packet_data,
    {
        let mut data: Vec<u8> = Vec::new();
        let stereo_byte: u8 = if self.stereo { 1 } else { 0 };
        let little: bool = machine_is_little_endian();
        push_packet_lengths(&self.packet_len, little, &mut data);
        let ghost lens_bytes = data@;
        data.extend_from_slice(self.packet_data.as_slice());
        proof {
            let n = self.packet_len@.len() as int;
            assert(data@.take(2 * n) =~= lens_bytes.skip(0));
            assert(data@.skip(2 * n) =~= self.packet_data@);
        }
        (stereo_byte, self.packet_len.len(), self.packet_data.len(), data)
    }

    /// Appends the stream to `data`: 1 for stereo or 0, the number of packets (a `usize`),
    /// the packet lengths (two bytes each), the number of packet bytes (a `usize`), and the
    /// packets' bytes; the counts and lengths all in the machine's byte order.
    pub fn add_to_vec(&self, data: &mut Vec<u8>)
        ensures
            stream_appended(old(data)@, final(data)@, self.view(), true) || stream_appended(
                old(data)@,
                final(data)@,
                self.view(),
                false,
            ),
    {
        let little: bool = machine_is_little_endian();
        let ghost start = data@.len() as int;
        let ghost before = data@;
        if self.stereo {
            data.push(1);
        } else {
            data.push(0);
        }
        let ghost after_push = data@;
        let count_bytes: Vec<u8> = usize_to_bytes(self.packet_len.len(), little);
        data.extend_from_slice(count_bytes.as_slice());
        let ghost after_count = data@;
        push_packet_lengths(&self.packet_len, little, data);
        let ghost after_lens = data@;
        let size_bytes: Vec<u8> = usize_to_bytes(self.packet_data.len(), little);
        data.extend_from_slice(size_bytes.as_slice());
        let ghost after_size = data@;
        data.extend_from_slice(self.packet_data.as_slice());
        proof {
            let w = count_bytes@.len() as int;
            let n = self.packet_len@.len() as int;
            assert(data@.take(after_size.len() as int) =~= after_size);
            assert(after_size.take(after_lens.len() as int) =~= after_lens);
            assert(after_count.take(start + 1) =~= after_push);
            assert(after_count.subrange(start + 1, start + 1 + w) =~= count_bytes@);
            assert(data@.take(start + 1 + w) =~= after_count) by {
                assert(data@.take(start + 1 + w) =~= after_size.take(after_lens.len() as int).take(
                    start + 1 + w,
                ));
            }
            assert(data@.take(start) =~= before) by {
                assert(data@.take(start) =~= after_count.take(start + 1).take(start));
            }
            assert(data@[start] == after_push[start]) by {
                assert(data@.take(start + 1 + w)[start] == after_count[start]);
            }
            assert(data@.subrange(start + 1, start + 1 + w) =~= count_bytes@) by {
                assert(data@.subrange(start + 1, start + 1 + w) =~= after_count.subrange(
                    start + 1,
                    start + 1 + w,
                ));
            }
            assert(data@.subrange(start + 1 + w, start + 1 + w + 2 * n) =~= after_lens.skip(
                after_count.len() as int,
            ));
            assert(data@.subrange(start + 1 + w + 2 * n, start + 1 + 2 * w + 2 * n)
                =~= size_bytes@);
            assert(data@.skip(start + 1 + 2 * w + 2 * n) =~= self.packet_data@);
        }
    }

    pub fn matches_id(&self, id: u64) -> (r: bool)
        ensures
            r == (self.view().id == id),
    {
        self.id == id
    }

    pub fn is_stereo(&self) -> (r: bool)
        ensures
            r == self.view().stereo,
    {
        self.stereo
    }

    /// The bytes of packet `packet`, which starts at `data_offset`; `None` past the last
    /// packet.
    pub fn get_input_slice(&self, packet: usize, data_offset: usize) -> (r: Option<&[u8]>)
        requires
            packet < self.view().packet_len.len() ==> data_offset + self.view().packet_len[packet as int]
                <= self.view().packet_data.len(),
        ensures
            packet >= self.view().packet_len.len() ==> r is None,
            packet < self.view().packet_len.len() ==> (r matches Some(s) && s@
                == self.view().packet_data.subrange(
                data_offset as int,
                data_offset + self.view().packet_len[packet as int],
            )),
    {
        if packet >= self.packet_len.len() {
            None
        } else {
            let data_len: usize = self.packet_data.len();
            let end: usize = data_offset + (self.packet_len[packet] as usize);
            assert(end <= data_len);
            Some(slice_range(&self.packet_data, data_offset, end))
        }
    }
}

/// The `n` bytes of `x`, the least significant first.
pub open spec fn le_bytes(x: nat, n: nat) -> Seq<u8>
    decreases n,
{
    if n == 0 {
        seq![]
    } else {
        seq![(x % 256) as u8] + le_bytes(x / 256, (n - 1) as nat)
    }
}

proof fn lemma_le_bytes_len(x: nat, n: nat)
    ensures
        le_bytes(x, n).len() == n,
    decreases n,
{
    if n > 0 {
        lemma_le_bytes_len(x / 256, (n - 1) as nat);
    }
}

/// `x` as a `usize` of the machine: as many bytes as a `usize` has, the least significant
/// first when `little`, else the most significant first.
pub open spec fn usize_bytes(x: nat, little: bool) -> Seq<u8> {
    let w = (usize::BITS / 8) as nat;
    if little {
        le_bytes(x, w)
    } else {
        le_bytes(x, w).reverse()
    }
}

/// `b` holds the lengths `lens`, two bytes each, in the byte order `little` names.
pub open spec fn is_u16_bytes(b: Seq<u8>, lens: Seq<u16>, little: bool) -> bool {
    &&& b.len() == 2 * lens.len()
    &&& forall|i: int|
        0 <= i < lens.len() ==> #[trigger] b.subrange(2 * i, 2 * i + 2) == u16_bytes(lens[i], little)
}

/// Appends the `n` bytes of `x`, the least significant first.
fn push_le_bytes(x: usize, n: usize, data: &mut Vec<u8>)
    ensures
        final(data)@ == old(data)@ + le_bytes(x as nat, n as nat),
    decreases n,
{
    if n > 0 {
        let ghost before = data@;
        data.push((x % 256) as u8);
        push_le_bytes(x / 256, n - 1, data);
        assert(data@ =~= before + le_bytes(x as nat, n as nat));
    } else {
        assert(data@ =~= old(data)@ + le_bytes(x as nat, n as nat));
    }
}

/// The bytes of `x` as a `usize` of the machine, in the byte order `little` names.
fn usize_to_bytes(x: usize, little: bool) -> (r: Vec<u8>)
    ensures
        r@ == usize_bytes(x as nat, little),
        r@.len() == usize::BITS / 8,
{
    let w: usize = (usize::BITS / 8) as usize;
    let mut le: Vec<u8> = Vec::new();
    push_le_bytes(x, w, &mut le);
    assert(le@ =~= le_bytes(x as nat, w as nat));
    proof {
        lemma_le_bytes_len(x as nat, w as nat);
    }
    if little {
        return le;
    }
    let mut r: Vec<u8> = Vec::new();
    let mut i: usize = 0;
    while i < le.len()
        invariant
            i <= le@.len(),
            r@ == le@.reverse().take(i as int),
        decreases le@.len() - i,
    {
        r.push(le[le.len() - 1 - i]);
        i += 1;
        assert(r@ =~= le@.reverse().take(i as int));
    }
    assert(r@ =~= le@.reverse());
    r
}

/// Appends the lengths, two bytes each in the byte order `little` names.
fn push_packet_lengths(lens: &Vec<u16>, little: bool, data: &mut Vec<u8>)
    ensures
        final(data)@.len() == old(data)@.len() + 2 * lens@.len(),
        final(data)@.take(old(data)@.len() as int) == old(data)@,
        is_u16_bytes(final(data)@.skip(old(data)@.len() as int), lens@, little),
{
    let ghost start = data@.len() as int;
    let ghost before = data@;
    let mut i: usize = 0;
    while i < lens.len()
        invariant
            i <= lens@.len(),
            start == before.len(),
            data@.len() == start + 2 * i,
            data@.take(start) == before,
            is_u16_bytes(data@.skip(start), lens@.take(i as int), little),
        decreases lens@.len() - i,
    {
        let b: [u8; 2] = u16_to_bytes(lens[i], little);
        let ghost prev = data@;
        data.push(b[0]);
        data.push(b[1]);
        i += 1;
        proof {
            assert(data@.take(start) =~= before) by {
                assert(prev.take(start) == before);
            }
            let t = data@.skip(start);
            let l = lens@.take(i as int);
            assert forall|j: int| 0 <= j < l.len() implies #[trigger] t.subrange(2 * j, 2 * j + 2)
                == u16_bytes(l[j], little) by {
                if j < i - 1 {
                    assert(t.subrange(2 * j, 2 * j + 2) =~= prev.skip(start).subrange(2 * j, 2 * j + 2));
                    assert(l[j] == lens@.take(i - 1)[j]);
                } else {
                    assert(t.subrange(2 * j, 2 * j + 2) =~= b@);
                }
            }
        }
    }
    assert(lens@.take(i as int) =~= lens@);
}

/// The part `start..end` of a vector's elements.
fn slice_range(v: &Vec<u8>, start: usize, end: usize) -> (r: &[u8])
    requires
        start <= end <= v@.len(),
    ensures
        r@ == v@.subrange(start as int, end as int),
{
    let s: &[u8] = v.as_slice();
    let r: &[u8] = &s[start..end];
    r
}

/// The total length of some packets.
pub open spec fn packet_sum(lens: Seq<u16>) -> int
    decreases lens.len(),
{
    if lens.len() == 0 {
        0
    } else {
        packet_sum(lens.drop_last()) + lens.last()
    }
}

proof fn lemma_packet_sum_add(a: Seq<u16>, b: Seq<u16>)
    ensures
        packet_sum(a + b) == packet_sum(a) + packet_sum(b),
    decreases b.len(),
{
    if b.len() > 0 {
        assert((a + b).drop_last() =~= a + b.drop_last());
        lemma_packet_sum_add(a, b.drop_last());
    } else {
        assert(a + b =~= a);
    }
}

/// The packets that a page's segments complete, and the one left open, hold the page's
/// bytes and those of the packet that was open before it.
proof fn lemma_segment_packets_sum(segments: Seq<u8>, open: int)
    requires
        open >= 0,
    ensures
        segment_packets(segments, open) matches Some((lens, next_open)) ==> next_open >= 0
            && packet_sum(lens) + next_open == open + byte_sum(segments),
    decreases segments.len(),
{
    if segments.len() > 0 {
        lemma_segment_packets_sum(segments.drop_last(), open);
        match segment_packets(segments.drop_last(), open) {
            None => {},
            Some((lens, length)) => {
                let d = segments.last();
                if length + d <= u16::MAX && d != 255 {
                    assert(lens.push((length + d) as u16).drop_last() =~= lens);
                }
            },
        }
    }
}

proof fn lemma_audio_pages_sum(
    data: Seq<u8>,
    serial: Seq<u8>,
    index: int,
    count: int,
    open: int,
    v: OpusView,
)
    requires
        open >= 0,
        packet_sum(v.packet_len) + open == v.packet_data.len(),
    ensures
        audio_pages(data, serial, index, count, open, v) matches Some(Some(w)) ==> packet_sum(
            w.packet_len,
        ) <= w.packet_data.len(),
    decreases data.len() - index,
{
    if 0 <= index && index + 26 <= data.len() {
        let i1 = index + 26;
        let i2 = i1 + 1;
        if data.len() - i1 >= 1 {
            let ps = data[i1] as int;
            if data.len() - i2 >= ps {
                let segments = data.subrange(i2, i2 + ps);
                lemma_segment_packets_sum(segments, open);
                match segment_packets(segments, open) {
                    None => {},
                    Some((lens, next_open)) => {
                        let dl = byte_sum(segments);
                        let i3 = i2 + ps;
                        if data.len() - i3 >= dl {
                            let v2 = OpusView {
                                packet_len: v.packet_len + lens,
                                packet_data: v.packet_data + data.subrange(i3, i3 + dl),
                                ..v
                            };
                            lemma_packet_sum_add(v.packet_len, lens);
                            lemma_audio_pages_sum(data, serial, i3 + dl, count + 1, next_open, v2);
                        }
                    },
                }
            }
        }
    }
}

/// The packets of a stream lie within its bytes: their lengths add up to no more than
/// the bytes that the stream holds (less only by a packet that the last page leaves open),
/// so that each packet, at the sum of the lengths before it, is a slice of the data.
pub proof fn law_packets_within_data(data: Seq<u8>, id: u64)
    ensures
        ogg_opus(data, id) matches Some(Some(v)) ==> packet_sum(v.packet_len)
            <= v.packet_data.len(),
{
    if data.len() >= 26 && data.len() - 26 >= 2 {
        let segment_len = data[27] as int;
        let v = OpusView {
            id,
            stereo: data[37] == 2,
            pre_skip: (data[38] as int + data[39] as int * 0x100) as u16,
            output_gain: (data[40] as int + data[41] as int * 0x100) as i16,
            packet_len: seq![],
            packet_data: seq![],
        };
        let i2 = 28 + segment_len;
        let i3 = i2 + 26;
        if data.len() - i3 >= 1 && data.len() >= i3 {
            let ps = data[i3] as int;
            let i4 = i3 + 1;
            if data.len() - i4 >= ps {
                let comment_size = byte_sum(data.subrange(i4, i4 + ps));
                let i5 = i4 + ps;
                lemma_audio_pages_sum(data, data.subrange(14, 18), i5 + comment_size, 2, 0, v);
            }
        }
    }
}

/// `segment_packets` of a prefix is defined where it is of the whole.
proof fn lemma_segment_packets_prefix(segments: Seq<u8>, n: int, open: int)
    requires
        0 <= n <= segments.len(),
        segment_packets(segments, open) is Some,
    ensures
        segment_packets(segments.take(n), open) is Some,
    decreases segments.len(),
{
    if n < segments.len() {
        assert(segments.drop_last().take(n) =~= segments.take(n));
        lemma_segment_packets_prefix(segments.drop_last(), n, open);
    } else {
        assert(segments.take(n) =~= segments);
    }
}

} // verus!
