use fempeg::decoder::MP2Context;
use fempeg::decoder::MP2Error;
use fempeg::decoder::MP2Stream;
use fempeg::decoder::Mode;
use fempeg::bits::Bitstream;
use fempeg::tables::QUANTIZER_TABLE;
use fempeg::tables::QuantizerSpec;
use fempeg::tables::MP2Constants;
use fempeg::ignore;

/// Build a frame of `len` zero payload bytes under the given header
/// fields: 0xFF sync, 0xFD (MPEG-1 Layer II, no CRC), then the bitrate
/// index, sampling-frequency code, padding bit and mode bits.
fn frame(bitrate_idx: u8, sf: u8, pad: u8, mode_bits: u8, mode_ext: u8, len: usize) -> Vec<u8> {
    let mut v = vec![0u8; len];
    v[0] = 0xFF;
    v[1] = 0xFD;
    v[2] = (bitrate_idx << 4) | (sf << 2) | (pad << 1);
    v[3] = (mode_bits << 6) | (mode_ext << 4);
    v
}

const SENTINEL: i16 = 0x5A5A;

#[test]
fn mono_32kbps_32khz_silent_frame() {
    let context = MP2Context();
    let mut stream = MP2Stream(&context);
    let f = frame(1, 2, 0, 3, 0, 144);
    let mut pcm = vec![SENTINEL; 2310];
    let r = stream.decode_frame(&f, &mut pcm);
    assert_eq!(r, Ok(144));
    // exactly 2304 samples are written, all silent, and mono output has
    // equal left and right samples in every pair
    for k in 0..2304 {
        assert_eq!(pcm[k], 0);
    }
    for k in 0..1152 {
        assert_eq!(pcm[2 * k], pcm[2 * k + 1]);
    }
    for k in 2304..2310 {
        assert_eq!(pcm[k], SENTINEL);
    }
}

#[test]
fn mono_32kbps_32khz_with_padding() {
    let context = MP2Context();
    let mut stream = MP2Stream(&context);
    let f = frame(1, 2, 1, 3, 0, 145);
    let mut pcm = vec![0i16; 2304];
    assert_eq!(stream.decode_frame(&f, &mut pcm), Ok(145));
}

#[test]
fn stereo_128kbps_44khz_frame_size() {
    let context = MP2Context();
    let mut stream = MP2Stream(&context);
    // 144000 * 128 / 44100 = 417
    let f = frame(8, 0, 0, 0, 0, 417);
    let mut pcm = vec![0i16; 2304];
    assert_eq!(stream.decode_frame(&f, &mut pcm), Ok(417));
}

#[test]
fn stereo_128kbps_44khz_padding_adds_one_byte() {
    let context = MP2Context();
    let mut stream = MP2Stream(&context);
    let f = frame(8, 0, 1, 0, 0, 418);
    let mut pcm = vec![0i16; 2304];
    assert_eq!(stream.decode_frame(&f, &mut pcm), Ok(418));
}

#[test]
fn joint_stereo_192kbps_48khz() {
    let context = MP2Context();
    let mut stream = MP2Stream(&context);
    // 144000 * 192 / 48000 = 576; mode extension 0 puts the bound at 4
    let f = frame(10, 1, 0, 1, 0, 576);
    let mut pcm = vec![0i16; 2304];
    assert_eq!(stream.decode_frame(&f, &mut pcm), Ok(576));
}

#[test]
fn two_successive_frames_step_the_ring_offset() {
    let context = MP2Context();
    let mut stream = MP2Stream(&context);
    let f = frame(1, 2, 0, 3, 0, 144);
    let mut pcm = vec![0i16; 2304];
    assert_eq!(stream.Voffs, 0);
    assert_eq!(stream.decode_frame(&f, &mut pcm), Ok(144));
    // 36 ring steps of 64: (0 - 2304) mod 1024 = 768
    assert_eq!(stream.Voffs, 768);
    assert_eq!(stream.decode_frame(&f, &mut pcm), Ok(144));
    assert_eq!(stream.Voffs, 512);
}

#[test]
fn decoding_is_deterministic_per_stream_state() {
    let context = MP2Context();
    // a frame with arbitrary nonzero payload decodes the same way on two
    // freshly built streams
    let mut f = frame(1, 2, 0, 3, 0, 144);
    for k in 4..144 {
        f[k] = (k as u8).wrapping_mul(37).wrapping_add(11);
    }
    let mut s1 = MP2Stream(&context);
    let mut s2 = MP2Stream(&context);
    let mut pcm1 = vec![0i16; 2304];
    let mut pcm2 = vec![0i16; 2304];
    assert_eq!(s1.decode_frame(&f, &mut pcm1), Ok(144));
    assert_eq!(s2.decode_frame(&f, &mut pcm2), Ok(144));
    assert_eq!(pcm1, pcm2);
    // mono: every pair is left == right even for nonzero payload
    for k in 0..1152 {
        assert_eq!(pcm1[2 * k], pcm1[2 * k + 1]);
    }
}

#[test]
fn bitrate_index_zero_is_rejected() {
    let context = MP2Context();
    let mut stream = MP2Stream(&context);
    let f = frame(0, 2, 0, 3, 0, 144);
    let mut pcm = vec![SENTINEL; 2304];
    assert_eq!(stream.decode_frame(&f, &mut pcm), Err(MP2Error::InvalidBitRate));
    assert!(pcm.iter().all(|&s| s == SENTINEL));
}

#[test]
fn bitrate_index_fifteen_is_rejected() {
    let context = MP2Context();
    let mut stream = MP2Stream(&context);
    let f = frame(15, 2, 0, 3, 0, 144);
    let mut pcm = vec![SENTINEL; 2304];
    assert_eq!(stream.decode_frame(&f, &mut pcm), Err(MP2Error::InvalidBitRate));
    assert!(pcm.iter().all(|&s| s == SENTINEL));
}

#[test]
fn sampling_frequency_three_is_rejected() {
    let context = MP2Context();
    let mut stream = MP2Stream(&context);
    let f = frame(1, 3, 0, 3, 0, 144);
    let mut pcm = vec![0i16; 2304];
    assert_eq!(stream.decode_frame(&f, &mut pcm), Err(MP2Error::InvalidSamplingFrequency));
}

#[test]
fn bad_sync_byte_is_rejected() {
    let context = MP2Context();
    let mut stream = MP2Stream(&context);
    let mut f = frame(1, 2, 0, 3, 0, 144);
    f[0] = 0x00;
    let mut pcm = vec![0i16; 2304];
    assert_eq!(stream.decode_frame(&f, &mut pcm), Err(MP2Error::Sync));
}

#[test]
fn bad_layer_bits_are_rejected() {
    let context = MP2Context();
    let mut stream = MP2Stream(&context);
    let mut f = frame(1, 2, 0, 3, 0, 144);
    f[1] = 0xF9;  // not Layer II
    let mut pcm = vec![0i16; 2304];
    assert_eq!(stream.decode_frame(&f, &mut pcm), Err(MP2Error::Sync));
}

#[test]
fn short_pcm_buffer_is_rejected() {
    let context = MP2Context();
    let mut stream = MP2Stream(&context);
    let f = frame(1, 2, 0, 3, 0, 144);
    let mut pcm = vec![SENTINEL; 2303];
    assert_eq!(stream.decode_frame(&f, &mut pcm), Err(MP2Error::OutputBufferTooSmall));
    assert!(pcm.iter().all(|&s| s == SENTINEL));
}

#[test]
fn get_sample_rate_reads_the_header_rate() {
    let context = MP2Context();
    let stream = MP2Stream(&context);
    assert_eq!(stream.get_sample_rate(&frame(8, 0, 0, 0, 0, 4)), Ok(44100));
    assert_eq!(stream.get_sample_rate(&frame(8, 1, 0, 0, 0, 4)), Ok(48000));
    assert_eq!(stream.get_sample_rate(&frame(8, 2, 0, 0, 0, 4)), Ok(32000));
    // sampling-frequency code 3 names no rate
    assert_eq!(stream.get_sample_rate(&frame(8, 3, 0, 0, 0, 4)), Ok(0));
}

#[test]
fn get_sample_rate_rejects_bad_headers() {
    let context = MP2Context();
    let stream = MP2Stream(&context);
    let mut f = frame(8, 0, 0, 0, 0, 4);
    f[0] = 0x11;
    assert_eq!(stream.get_sample_rate(&f), Err(MP2Error::Sync));
    assert_eq!(stream.get_sample_rate(&frame(0, 0, 0, 0, 0, 4)), Err(MP2Error::InvalidBitRate));
    assert_eq!(stream.get_sample_rate(&frame(15, 0, 0, 0, 0, 4)), Err(MP2Error::InvalidBitRate));
}

#[test]
fn bitstream_reads_msb_first_and_zero_fills() {
    let bytes: [u8; 5] = [0xFF, 0xFD, 0xAB, 0xCD, 0xEF];
    let mut bs = Bitstream::new(&bytes);
    assert_eq!(bs.get_bits(4), 0xA);
    assert_eq!(bs.get_bits(4), 0xB);
    assert_eq!(bs.get_bits(8), 0xCD);
    assert_eq!(bs.get_bits(8), 0xEF);
    // past the end of the frame the reader hands out zeros
    assert_eq!(bs.get_bits(16), 0);
    assert_eq!(bs.get_bits(16), 0);
}

#[test]
fn bitstream_show_does_not_consume() {
    let bytes: [u8; 4] = [0xFF, 0xFD, 0x9C, 0x00];
    let bs = Bitstream::new(&bytes);
    assert_eq!(bs.show_bits(4), 0x9);
    assert_eq!(bs.show_bits(8), 0x9C);
}

#[test]
fn quantizer_table_endpoints() {
    let table = QUANTIZER_TABLE();
    assert_eq!(table[0].nlevels, 3);
    assert_eq!(table[0].grouping, 1);
    assert_eq!(table[0].cw_bits, 5);
    assert_eq!(table[16].nlevels, 65535);
    assert_eq!(table[16].cw_bits, 16);
    let q = QuantizerSpec(7, 0, 3, 0x2AAA, 0x0003);
    assert_eq!(q.nlevels, 7);
    assert_eq!(q.Sdiv, 3);
}

#[test]
fn mode_field_names_the_four_modes() {
    assert_eq!(Mode(0), Mode::Stereo);
    assert_eq!(Mode(1), Mode::JointStereo);
    assert_eq!(Mode(2), Mode::DualChannel);
    assert_eq!(Mode(3), Mode::Mono);
    ignore(Mode(0));
}

#[test]
fn constants_are_gathered_once() {
    let c = MP2Constants();
    assert_eq!(c.QUANT_LUT_STEP2[0][0], 8);
    assert_eq!(c.QUANT_LUT_STEP2[2][0], 94);
    assert_eq!(c.QUANT_LUT_STEP4[2][15], 17);
}
