use swiftlet::audio::coreaudio::{
    check_action_flag, check_format_flag, AudioFormatFlags, AudioFormatId, AudioUnitActionFlags,
    Error as CoreAudioError, PropertyAddress, PropertyScope, PropertySelector,
};
use swiftlet::audio::opus::{analyze_ogg_page_header, OggPageHeaderAnalysisResult, OpusData};
use swiftlet::audio::raw::{interleave, Raw};
use swiftlet::audio::{check_output_channels, get_input_channel_plan, Error, InputChannelPlan};

fn page_header(header_type: u8, granule: u8, serial: [u8; 4], sequence: u32) -> Vec<u8> {
    let mut h = vec![b'O', b'g', b'g', b'S', 0, header_type];
    h.extend_from_slice(&[granule, 0, 0, 0, 0, 0, 0, 0]);
    h.extend_from_slice(&serial);
    h.extend_from_slice(&sequence.to_le_bytes());
    h.extend_from_slice(&[0, 0, 0, 0]);
    h
}

fn header_array(v: &[u8]) -> [u8; 26] {
    v.try_into().unwrap()
}

fn opus_file(channels: u8) -> Vec<u8> {
    let serial = [1, 2, 3, 4];
    let mut d = page_header(2, 0, serial, 0);
    d.push(1);
    d.push(19);
    d.extend_from_slice(b"OpusHead");
    d.push(1);
    d.push(channels);
    d.extend_from_slice(&312u16.to_le_bytes());
    d.extend_from_slice(&48000u32.to_le_bytes());
    d.extend_from_slice(&256i16.to_le_bytes());
    d.push(0);
    d.extend_from_slice(&page_header(0, 0, serial, 1));
    d.push(1);
    d.push(8);
    d.extend_from_slice(b"OpusTags");
    d.extend_from_slice(&page_header(4, 1, serial, 2));
    d.push(2);
    d.push(3);
    d.push(2);
    d.extend_from_slice(&[10, 11, 12, 20, 21]);
    d
}

#[test]
fn ogg_page_kinds() {
    let serial = [1u8, 2, 3, 4];
    let id = header_array(&page_header(2, 0, serial, 0));
    assert_eq!(
        analyze_ogg_page_header(&id, None),
        OggPageHeaderAnalysisResult::IdentificationHeader(serial)
    );
    let comment = header_array(&page_header(0, 0, serial, 1));
    assert_eq!(analyze_ogg_page_header(&comment, None), OggPageHeaderAnalysisResult::InvalidPage);
    assert_eq!(
        analyze_ogg_page_header(&comment, Some(&serial)),
        OggPageHeaderAnalysisResult::CommentHeader
    );
    assert_eq!(
        analyze_ogg_page_header(&comment, Some(&[9, 9, 9, 9])),
        OggPageHeaderAnalysisResult::InvalidPage
    );
    let audio = header_array(&page_header(0, 5, serial, 0x0102_0304));
    assert_eq!(
        analyze_ogg_page_header(&audio, Some(&serial)),
        OggPageHeaderAnalysisResult::AudioDataPage(0x0102_0304)
    );
    let cont = header_array(&page_header(1, 5, serial, 3));
    assert_eq!(
        analyze_ogg_page_header(&cont, Some(&serial)),
        OggPageHeaderAnalysisResult::AudioDataPageContinuation(3)
    );
    let last = header_array(&page_header(4, 5, serial, 3));
    assert_eq!(
        analyze_ogg_page_header(&last, Some(&serial)),
        OggPageHeaderAnalysisResult::AudioDataPageFinal(3)
    );
    let cont_last = header_array(&page_header(5, 5, serial, 3));
    assert_eq!(
        analyze_ogg_page_header(&cont_last, Some(&serial)),
        OggPageHeaderAnalysisResult::AudioDataPageContinuationFinal(3)
    );
    let continuation_without_granule = header_array(&page_header(1, 0, serial, 3));
    assert_eq!(
        analyze_ogg_page_header(&continuation_without_granule, Some(&serial)),
        OggPageHeaderAnalysisResult::InvalidPage
    );
    let mut bad = page_header(0, 5, serial, 3);
    bad[0] = b'X';
    assert_eq!(
        analyze_ogg_page_header(&header_array(&bad), Some(&serial)),
        OggPageHeaderAnalysisResult::InvalidPage
    );
    let unknown_type = header_array(&page_header(3, 5, serial, 3));
    assert_eq!(
        analyze_ogg_page_header(&unknown_type, Some(&serial)),
        OggPageHeaderAnalysisResult::InvalidPage
    );
}

#[test]
fn opus_stream_from_ogg() {
    let d = opus_file(2);
    let opus = OpusData::create_from_ogg_file(&d, 77).unwrap();
    assert!(opus.matches_id(77));
    assert!(!opus.matches_id(78));
    assert!(opus.is_stereo());
    assert_eq!(opus.get_input_slice(0, 0), Some(&[10u8, 11, 12][..]));
    assert_eq!(opus.get_input_slice(1, 3), Some(&[20u8, 21][..]));
    assert_eq!(opus.get_input_slice(2, 0), None);
    let (stereo, packets, bytes, data) = opus.to_data();
    assert_eq!((stereo, packets, bytes), (1, 2, 5));
    let lens = [3u16.to_ne_bytes(), 2u16.to_ne_bytes()].concat();
    assert_eq!(&data[..4], &lens[..]);
    assert_eq!(&data[4..], &[10, 11, 12, 20, 21]);
}

#[test]
fn opus_stream_appended_to_vec() {
    let opus = OpusData::create_from_ogg_file(&opus_file(1), 1).unwrap();
    assert!(!opus.is_stereo());
    let mut out = vec![42u8];
    opus.add_to_vec(&mut out);
    let mut expected = vec![42u8, 0];
    expected.extend_from_slice(&2usize.to_ne_bytes());
    expected.extend_from_slice(&3u16.to_ne_bytes());
    expected.extend_from_slice(&2u16.to_ne_bytes());
    expected.extend_from_slice(&5usize.to_ne_bytes());
    expected.extend_from_slice(&[10, 11, 12, 20, 21]);
    assert_eq!(out, expected);
}

#[test]
fn opus_stream_refusals() {
    let mut three_channels = opus_file(2);
    three_channels[37] = 3;
    assert!(OpusData::create_from_ogg_file(&three_channels, 0).is_none());
    let mut bad_magic = opus_file(2);
    bad_magic[28] = b'X';
    assert!(OpusData::create_from_ogg_file(&bad_magic, 0).is_none());
    let mut two_segments = opus_file(2);
    two_segments[26] = 2;
    assert!(OpusData::create_from_ogg_file(&two_segments, 0).is_none());
    let mut not_first = opus_file(2);
    not_first[5] = 0;
    assert!(OpusData::create_from_ogg_file(&not_first, 0).is_none());
    let mut short_data = opus_file(2);
    short_data.pop();
    assert!(OpusData::create_from_ogg_file(&short_data, 0).is_none());
}

#[test]
fn opus_stream_ends_at_unexpected_page() {
    let mut d = opus_file(2);
    // The audio page claims sequence number 3 where 2 comes next: no packets are read.
    let audio_page = d.len() - 5 - 3 - 26;
    d[audio_page + 18] = 3;
    let opus = OpusData::create_from_ogg_file(&d, 0).unwrap();
    assert_eq!(opus.get_input_slice(0, 0), None);
    let (_, packets, bytes, data) = opus.to_data();
    assert_eq!((packets, bytes), (0, 0));
    assert!(data.is_empty());
}

fn wav(channels: u16, bits: u16, block_align: u16, extra_chunk: bool, samples: &[u8]) -> Vec<u8> {
    let mut body = Vec::new();
    body.extend_from_slice(b"WAVE");
    body.extend_from_slice(b"fmt ");
    body.extend_from_slice(&16u32.to_le_bytes());
    body.extend_from_slice(&1u16.to_le_bytes());
    body.extend_from_slice(&channels.to_le_bytes());
    body.extend_from_slice(&48000u32.to_le_bytes());
    body.extend_from_slice(&(48000u32 * block_align as u32).to_le_bytes());
    body.extend_from_slice(&block_align.to_le_bytes());
    body.extend_from_slice(&bits.to_le_bytes());
    if extra_chunk {
        body.extend_from_slice(b"LIST");
        body.extend_from_slice(&4u32.to_le_bytes());
        body.extend_from_slice(b"abcd");
    }
    body.extend_from_slice(b"data");
    body.extend_from_slice(&(samples.len() as u32).to_le_bytes());
    body.extend_from_slice(samples);
    let mut d = Vec::new();
    d.extend_from_slice(b"RIFF");
    d.extend_from_slice(&(body.len() as u32).to_le_bytes());
    d.extend_from_slice(&body);
    d
}

#[test]
fn wav_mono_16_bit() {
    let d = wav(1, 16, 2, false, &[0xE8, 0x03, 0xFE, 0xFF]);
    let raw = Raw::new_from_wav(&d).unwrap();
    assert!(raw.is_ideal_sample_rate());
    assert_eq!(raw.bits_per_sample(), 16);
    assert_eq!(raw.first_channel(), &vec![1000, -2]);
    assert!(raw.second_channel().is_none());
    assert_eq!(raw.get_stereo(), Some(vec![1000, 1000, -2, -2]));
}

#[test]
fn wav_stereo_8_bit_after_other_chunk() {
    let d = wav(2, 8, 2, true, &[0x01, 0xFF, 0x80, 0x7F]);
    let raw = Raw::new_from_wav(&d).unwrap();
    assert_eq!(raw.first_channel(), &vec![1, -128]);
    assert_eq!(raw.second_channel(), Some(&vec![-1, 127]));
    assert_eq!(raw.get_stereo(), Some(vec![1, -1, -128, 127]));
}

#[test]
fn wav_24_and_32_bit_samples() {
    let d = wav(1, 24, 3, false, &[0x00, 0x00, 0x80, 0xFF, 0xFF, 0x7F]);
    let raw = Raw::new_from_wav(&d).unwrap();
    assert_eq!(raw.first_channel(), &vec![-8388608, 8388607]);
    let d = wav(1, 32, 4, false, &[0, 0, 0, 0x80, 1, 0, 0, 0]);
    let raw = Raw::new_from_wav(&d).unwrap();
    assert_eq!(raw.first_channel(), &vec![i32::MIN, 1]);
}

#[test]
fn wav_refusals() {
    let good = wav(1, 16, 2, false, &[0, 0]);
    let mut not_riff = good.clone();
    not_riff[0] = b'X';
    assert!(Raw::new_from_wav(&not_riff).is_none());
    assert!(Raw::new_from_wav(&good[..7]).is_none());
    let mut too_long = good.clone();
    too_long[4] = too_long[4] + 1;
    assert!(Raw::new_from_wav(&too_long).is_none());
    let mut not_pcm = good.clone();
    not_pcm[20] = 3;
    assert!(Raw::new_from_wav(&not_pcm).is_none());
    let bad_align = wav(1, 16, 3, false, &[0, 0]);
    assert!(Raw::new_from_wav(&bad_align).is_none());
    let three = wav(3, 8, 3, false, &[0, 0, 0]);
    assert!(Raw::new_from_wav(&three).is_none());
    let no_channels = wav(0, 8, 0, false, &[]);
    assert!(Raw::new_from_wav(&no_channels).is_none());
    let mut no_data = good.clone();
    no_data.truncate(36);
    no_data[4] = 28;
    assert!(Raw::new_from_wav(&no_data).is_none());
}

#[test]
fn interleave_channels() {
    assert_eq!(interleave(&vec![1, 2], &vec![3, 4]), vec![1, 3, 2, 4]);
    assert_eq!(interleave(&vec![], &vec![]), Vec::<i32>::new());
}

#[test]
fn coreaudio_codes() {
    assert_eq!(PropertySelector::Devices.get_u32(), 0x64657623);
    assert_eq!(PropertySelector::OutputDefault.get_u32(), 0x644F7574);
    assert_eq!(PropertyScope::Global.get_u32(), 0x676C6F62);
    assert_eq!(AudioFormatId::LinearPcm.get_u32(), 0x6C70636D);
    assert_eq!(AudioFormatId::Opus.get_u32(), 0x6F707573);
    let address = PropertyAddress::new(PropertySelector::NominalSampleRate, &PropertyScope::Input);
    assert_eq!(address.selector, 0x6E737274);
    assert_eq!(address.scope, 0x696E7074);
    assert_eq!(address.element, 0);
}

#[test]
fn coreaudio_flags() {
    assert!(check_action_flag(0x14, AudioUnitActionFlags::PreRender));
    assert!(!check_action_flag(0x14, AudioUnitActionFlags::PostRender));
    assert!(check_action_flag(0x200, AudioUnitActionFlags::DoNotCheckRenderArgs));
    assert!(check_format_flag(0x9, AudioFormatFlags::IsFloat));
    assert!(check_format_flag(0x9, AudioFormatFlags::IsPacked));
    assert!(!check_format_flag(0x9, AudioFormatFlags::IsBigEndian));
}

#[test]
fn coreaudio_status_codes() {
    assert_eq!(CoreAudioError::from_i32(0), CoreAudioError::NoError);
    assert_eq!(CoreAudioError::from_i32(-43), CoreAudioError::FileNotFound);
    assert_eq!(CoreAudioError::from_i32(0x21707468), CoreAudioError::BadFilePath);
    assert_eq!(CoreAudioError::from_i32(-108), CoreAudioError::MemFull);
    assert_eq!(CoreAudioError::from_i32(2), CoreAudioError::Unimplemented);
    assert_eq!(CoreAudioError::from_i32(-4), CoreAudioError::Unimplemented);
    for e in [CoreAudioError::FilePermission, CoreAudioError::Param, CoreAudioError::TooManyFilesOpen] {
        assert_eq!(CoreAudioError::from_i32(e.get_i32()), e);
    }
}

#[test]
fn channel_plans() {
    assert_eq!(get_input_channel_plan(2, 2), InputChannelPlan::Direct);
    assert_eq!(get_input_channel_plan(2, 1), InputChannelPlan::DownmixStereo);
    assert_eq!(get_input_channel_plan(1, 2), InputChannelPlan::Mismatch);
    assert_eq!(check_output_channels(2, 2), Ok(()));
    assert_eq!(check_output_channels(1, 2), Err(Error::ChannelMismatch));
}

#[test]
fn ogg_reads_that_would_run_past_the_data() {
    assert!(OpusData::try_create_from_ogg_file(&[0u8; 10], 0).is_none());
    let d = opus_file(2);
    // The data ends inside the comment page's header.
    assert!(OpusData::try_create_from_ogg_file(&d[..50], 0).is_none());
    // A packet that goes on over two pages and grows past 65535 bytes.
    let serial = [1u8, 2, 3, 4];
    let mut long = d[..d.len() - 5 - 3 - 26].to_vec();
    long.extend_from_slice(&page_header(0, 1, serial, 2));
    long.push(255);
    long.extend_from_slice(&[255u8; 255]);
    long.extend_from_slice(&vec![7u8; 255 * 255]);
    long.extend_from_slice(&page_header(5, 2, serial, 3));
    long.push(4);
    long.extend_from_slice(&[255, 255, 255, 0]);
    long.extend_from_slice(&vec![7u8; 765]);
    assert!(OpusData::try_create_from_ogg_file(&long, 0).is_none());
    let Some(Some(_)) = OpusData::try_create_from_ogg_file(&d, 0) else {
        panic!("a readable stream was not read");
    };
    assert!(matches!(OpusData::try_create_from_ogg_file(&opus_file(3), 0), Some(None)));
}

#[test]
fn wav_truncated_or_malformed_input_is_refused() {
    let riff_header_only: Vec<u8> = vec![b'R', b'I', b'F', b'F', 0, 0, 0, 0];
    assert!(Raw::new_from_wav(&riff_header_only).is_none());
    let mut short = b"RIFF".to_vec();
    short.extend_from_slice(&2u32.to_le_bytes());
    short.extend_from_slice(b"WA");
    assert!(Raw::new_from_wav(&short).is_none());
    let mut truncated = wav(1, 16, 2, false, &[1, 0, 2, 0]);
    let n = truncated.len();
    truncated.truncate(n - 1);
    truncated[4] -= 1;
    assert!(Raw::new_from_wav(&truncated).is_none());
    let zero_bits = wav(1, 0, 0, false, &[]);
    assert!(Raw::new_from_wav(&zero_bits).is_none());
    let wide = wav(1, 40, 5, false, &[0; 5]);
    assert!(Raw::new_from_wav(&wide).is_none());
    let mut chunk_past_end = wav(1, 8, 1, true, &[5]);
    chunk_past_end[40] = 200;
    assert!(Raw::new_from_wav(&chunk_past_end).is_none());
    let one = Raw::new_from_wav(&wav(1, 8, 1, false, &[5])).unwrap();
    assert_eq!(one.first_channel(), &vec![5]);
}

fn wav_big_endian(bits: u16, block_align: u16, samples: &[u8]) -> Vec<u8> {
    let mut body = Vec::new();
    body.extend_from_slice(b"WAVE");
    body.extend_from_slice(b"fmt ");
    body.extend_from_slice(&16u32.to_be_bytes());
    body.extend_from_slice(&1u16.to_be_bytes());
    body.extend_from_slice(&1u16.to_be_bytes());
    body.extend_from_slice(&44100u32.to_be_bytes());
    body.extend_from_slice(&(44100u32 * block_align as u32).to_be_bytes());
    body.extend_from_slice(&block_align.to_be_bytes());
    body.extend_from_slice(&bits.to_be_bytes());
    body.extend_from_slice(b"data");
    body.extend_from_slice(&(samples.len() as u32).to_be_bytes());
    body.extend_from_slice(samples);
    let mut d = Vec::new();
    d.extend_from_slice(b"RIFF");
    d.extend_from_slice(&(body.len() as u32).to_be_bytes());
    d.extend_from_slice(&body);
    d
}

#[test]
fn wav_read_in_either_byte_order() {
    let be16 = wav_big_endian(16, 2, &[0x03, 0xE8, 0xFF, 0xFE]);
    let raw = Raw::new_from_wav_in_order(&be16, false).unwrap();
    assert!(!raw.is_ideal_sample_rate());
    assert_eq!(raw.first_channel(), &vec![1000, -2]);
    assert!(Raw::new_from_wav_in_order(&be16, true).is_none());
    let be24 = wav_big_endian(24, 3, &[0x12, 0x34, 0x56]);
    let raw = Raw::new_from_wav_in_order(&be24, false).unwrap();
    assert_eq!(raw.first_channel(), &vec![0x1234]);
    let be32 = wav_big_endian(32, 4, &[0x80, 0, 0, 1]);
    let raw = Raw::new_from_wav_in_order(&be32, false).unwrap();
    assert_eq!(raw.first_channel(), &vec![i32::MIN + 1]);
    let le16 = wav(1, 16, 2, false, &[0xE8, 0x03]);
    let raw = Raw::new_from_wav_in_order(&le16, true).unwrap();
    assert_eq!(raw.first_channel(), &vec![1000]);
    let native = if 1u16.to_ne_bytes()[0] == 1 { le16.clone() } else { be16.clone() };
    assert!(Raw::new_from_wav(&native).is_some());
}
