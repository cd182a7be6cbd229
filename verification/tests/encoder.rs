use quartz::audio::{AudioFormat, AudioSource, Sample, SourceError};
use quartz::station::codec::enc::Encoder;
use quartz::station::codec::frame::FrameSize;
use quartz::station::codec::ogg::{wrapping_add, OggStream, PacketHeader, STREAM_ID};
use quartz::station::codec::opus::{
    write_header, write_session_tags, Gathered, InitError, OpusEncoder, Progress, EPSILON,
};
use quartz::station::codec::{Application, Bandwidth, Bitrate, Options, Signal};
use quartz::station::pump::Pump;

const STEREO: AudioFormat = AudioFormat { channels: 2, sample_rate: 48000 };

fn options(frame_size: FrameSize, max_page: u64) -> Options {
    Options {
        frame_size,
        bit_rate: Bitrate::Max,
        signal: Signal::Music,
        bandwidth: Bandwidth::Fullband,
        application: Application::Audio,
        max_page,
        buffer_size: 7_000_000_000,
        complexity: 5,
        vbr: true,
    }
}

/// Delivers `chunk` samples of value `value` per pull until `left` runs out.
struct Tone {
    value: Sample,
    left: usize,
    chunk: usize,
    fail: bool,
}

impl AudioSource for Tone {
    fn spec_format(&self) -> AudioFormat {
        self.format()
    }

    fn format(&self) -> AudioFormat {
        STEREO
    }

    fn pull(&mut self, count: usize) -> Result<Vec<Sample>, SourceError> {
        if self.fail {
            return Err(SourceError::Fetch);
        }
        let n = count.min(self.chunk).min(self.left);
        self.left -= n;
        Ok(vec![self.value; n])
    }
}

#[test]
fn sample_counts_per_frame() {
    assert_eq!(FrameSize::Ms2Half.as_sample_count(48000), 120);
    assert_eq!(FrameSize::Ms5.as_sample_count(48000), 240);
    assert_eq!(FrameSize::Ms10.as_sample_count(48000), 480);
    assert_eq!(FrameSize::Ms20.as_sample_count(48000), 960);
    assert_eq!(FrameSize::Ms40.as_sample_count(48000), 1920);
    assert_eq!(FrameSize::Ms60.as_sample_count(48000), 2880);
    assert_eq!(FrameSize::Ms2Half.as_sample_count(8000), 20);
    assert_eq!(FrameSize::Ms20.as_sample_count(44100), 882);
    assert_eq!(FrameSize::Ms2Half.as_sample_count(44100), 110);
}

#[test]
fn sample_count_at_the_edges() {
    assert_eq!(FrameSize::Ms60.as_sample_count(0), 0);
    assert_eq!(FrameSize::Ms5.as_sample_count(199), 0);
    assert_eq!(FrameSize::Ms5.as_sample_count(200), 1);
    assert_eq!(FrameSize::Ms60.as_sample_count(u32::MAX), 257_698_037);
    assert_eq!(FrameSize::Ms2Half.as_sample_count(u32::MAX), 10_737_418);
}

#[test]
fn opus_encoder_admits_the_codec_formats() {
    for rate in [8000u32, 12000, 16000, 24000, 48000] {
        for channels in [1u8, 2] {
            let format = AudioFormat { channels, sample_rate: rate };
            let made = OpusEncoder::new(format, &options(FrameSize::Ms20, 1_000_000_000));
            let enc = made.ok().unwrap();
            assert_eq!(enc.format(), format);
            assert_eq!(enc.frame_size(), (rate as u64 / 50) * channels as u64);
        }
    }
}

#[test]
fn opus_encoder_refuses_other_formats() {
    let o = options(FrameSize::Ms20, 1_000_000_000);
    for format in [
        AudioFormat { channels: 2, sample_rate: 44100 },
        AudioFormat { channels: 2, sample_rate: 0 },
        AudioFormat { channels: 0, sample_rate: 48000 },
        AudioFormat { channels: 3, sample_rate: 48000 },
    ] {
        assert_eq!(OpusEncoder::new(format, &o).err(), Some(InitError::Format));
        assert_eq!(Encoder::new(format, &o).err(), Some(InitError::Format));
    }
}

#[test]
fn opus_encoder_refuses_complexity_above_ten() {
    let mut o = options(FrameSize::Ms20, 1_000_000_000);
    o.complexity = 10;
    assert!(OpusEncoder::new(STEREO, &o).is_ok());
    o.complexity = 11;
    assert_eq!(OpusEncoder::new(STEREO, &o).err(), Some(InitError::Complexity));
    assert_eq!(Encoder::new(STEREO, &o).err(), Some(InitError::Complexity));
    // the format is looked at first
    assert_eq!(
        OpusEncoder::new(AudioFormat { channels: 2, sample_rate: 1 }, &o).err(),
        Some(InitError::Format)
    );
}

#[test]
fn opus_encoder_writes_the_session_headers() {
    let enc = OpusEncoder::new(STEREO, &options(FrameSize::Ms20, 1_000_000_000)).ok().unwrap();
    assert_eq!(enc.write_header(), write_header(STEREO));
    assert_eq!(enc.write_tags(), write_session_tags());
}

#[test]
fn finish_frame_pads_with_silence() {
    let enc = OpusEncoder::new(
        AudioFormat { channels: 1, sample_rate: 8000 },
        &options(FrameSize::Ms2Half, 1_000_000_000),
    )
    .ok()
    .unwrap();
    assert_eq!(enc.frame_size(), 20);
    let frame = enc.finish_frame(vec![5, 6, 7]);
    let mut expected = vec![0u32; 20];
    expected[0] = 5;
    expected[1] = 6;
    expected[2] = 7;
    assert_eq!(frame, expected);
}

#[test]
fn finish_frame_never_leaves_total_silence() {
    let enc = OpusEncoder::new(
        AudioFormat { channels: 1, sample_rate: 8000 },
        &options(FrameSize::Ms2Half, 1_000_000_000),
    )
    .ok()
    .unwrap();
    assert_eq!(EPSILON, 0.0001f32.to_bits());
    let mut expected = vec![0u32; 20];
    expected[0] = EPSILON;
    assert_eq!(enc.finish_frame(Vec::new()), expected);
    assert_eq!(enc.finish_frame(vec![0; 20]), expected);
    // negative zero is zero too
    let mut negative = vec![0u32; 20];
    negative[3] = (-0.0f32).to_bits();
    let mut patched = negative.clone();
    patched[0] = EPSILON;
    assert_eq!(enc.finish_frame(negative), patched);
}

#[test]
fn finish_frame_keeps_a_frame_that_is_not_silent() {
    let enc = OpusEncoder::new(
        AudioFormat { channels: 1, sample_rate: 8000 },
        &options(FrameSize::Ms2Half, 1_000_000_000),
    )
    .ok()
    .unwrap();
    // first sample zero, a later one not: left as it is
    let mut frame = vec![0u32; 20];
    frame[19] = 1.0f32.to_bits();
    assert_eq!(enc.finish_frame(frame.clone()), frame);
    let mut short = vec![0u32; 4];
    short[2] = 42;
    let mut expected = vec![0u32; 20];
    expected[2] = 42;
    assert_eq!(enc.finish_frame(short), expected);
}

#[test]
fn pull_frame_collects_a_frame_over_several_pulls() {
    let enc = OpusEncoder::new(STEREO, &options(FrameSize::Ms20, 1_000_000_000)).ok().unwrap();
    let mut source = Tone { value: 9, left: 5000, chunk: 700, fail: false };
    let frame = enc.pull_frame(&mut source).unwrap().unwrap();
    assert_eq!(frame, vec![9u32; 1920]);
    assert_eq!(source.left, 5000 - 1920);
}

#[test]
fn pull_frame_pads_the_last_frame_and_then_reports_exhaustion() {
    let enc = OpusEncoder::new(STEREO, &options(FrameSize::Ms20, 1_000_000_000)).ok().unwrap();
    let mut source = Tone { value: 9, left: 100, chunk: 64, fail: false };
    let frame = enc.pull_frame(&mut source).unwrap().unwrap();
    let mut expected = vec![0u32; 1920];
    for s in expected.iter_mut().take(100) {
        *s = 9;
    }
    assert_eq!(frame, expected);
    assert_eq!(enc.pull_frame(&mut source), Ok(None));
}

#[test]
fn pull_frame_replaces_total_silence() {
    let enc = OpusEncoder::new(STEREO, &options(FrameSize::Ms20, 1_000_000_000)).ok().unwrap();
    let mut source = Tone { value: 0, left: 1920, chunk: 1920, fail: false };
    let frame = enc.pull_frame(&mut source).unwrap().unwrap();
    assert_eq!(frame[0], EPSILON);
    assert!(frame[1..].iter().all(|s| *s == 0));
}

#[test]
fn pull_frame_hands_on_the_error_of_the_source() {
    let enc = OpusEncoder::new(STEREO, &options(FrameSize::Ms20, 1_000_000_000)).ok().unwrap();
    let mut source = Tone { value: 1, left: 10, chunk: 10, fail: true };
    assert_eq!(enc.pull_frame(&mut source), Err(SourceError::Fetch));
}

#[test]
fn wrapping_add_wraps() {
    assert_eq!(wrapping_add(1, 2), 3);
    assert_eq!(wrapping_add(u64::MAX, 1), 0);
    assert_eq!(wrapping_add(u64::MAX, u64::MAX), u64::MAX - 1);
    assert_eq!(wrapping_add(0, 0), 0);
    assert_eq!(wrapping_add(5, u64::MAX), 4);
}

#[test]
fn stream_stamps_packets_in_sequence() {
    assert_eq!(STREAM_ID, 888765668);
    let mut ogg = OggStream::new();
    assert_eq!(
        ogg.put(0),
        PacketHeader { b_o_s: true, e_o_s: false, granulepos: 0, packetno: 0 }
    );
    assert_eq!(
        ogg.put(0),
        PacketHeader { b_o_s: false, e_o_s: false, granulepos: 0, packetno: 1 }
    );
    assert_eq!(
        ogg.put(960),
        PacketHeader { b_o_s: false, e_o_s: false, granulepos: 960, packetno: 2 }
    );
    assert_eq!(
        ogg.put(960),
        PacketHeader { b_o_s: false, e_o_s: false, granulepos: 1920, packetno: 3 }
    );
}

#[test]
fn granule_position_wraps() {
    let mut ogg = OggStream::new();
    ogg.put(u64::MAX);
    let header = ogg.put(3);
    assert_eq!(header.granulepos, 2);
    assert_eq!(header.packetno, 1);
    assert!(!header.b_o_s);
}

#[test]
fn encoder_stamps_the_two_header_packets_first() {
    let mut enc = Encoder::new(STEREO, &options(FrameSize::Ms20, 1_000_000_000)).ok().unwrap();
    assert_eq!(enc.format(), STEREO);
    let head = enc.header_packet();
    assert_eq!(head.data, write_header(STEREO));
    assert_eq!(
        head.header,
        PacketHeader { b_o_s: true, e_o_s: false, granulepos: 0, packetno: 0 }
    );
    let tags = enc.tags_packet();
    assert_eq!(tags.data, write_session_tags());
    assert_eq!(
        tags.header,
        PacketHeader { b_o_s: false, e_o_s: false, granulepos: 0, packetno: 1 }
    );
    let put = enc.packet();
    assert_eq!(
        put.header,
        PacketHeader { b_o_s: false, e_o_s: false, granulepos: 960, packetno: 2 }
    );
    assert!(!put.flush);
}

#[test]
fn encoder_forces_a_page_at_the_longest_duration() {
    // 48 kHz: a page of one second holds 48000 samples, which 50 frames of
    // 20 ms reach.
    let mut enc = Encoder::new(STEREO, &options(FrameSize::Ms20, 1_000_000_000)).ok().unwrap();
    for _ in 0..49 {
        assert!(!enc.packet().flush);
        assert!(enc.page(&[]).is_none());
    }
    let put = enc.packet();
    assert!(put.flush);
    assert_eq!(put.header.granulepos, 48000);
    let page = enc.page(&[1, 2, 3]).unwrap();
    assert_eq!(page.bytes(), vec![1u8, 2, 3]);
    assert_eq!(page.duration, 1_000_000_000);
    assert_eq!(page.id, 0);
}

#[test]
fn encoder_pages_carry_what_was_accumulated() {
    let mut enc = Encoder::new(
        AudioFormat { channels: 1, sample_rate: 8000 },
        &options(FrameSize::Ms60, 1_000_000_000),
    )
    .ok()
    .unwrap();
    // no packet yet: a page of the headers lasts nothing
    let first = enc.page(&[0xAA]).unwrap();
    assert_eq!(first.duration, 0);
    assert_eq!(first.id, 0);
    enc.packet();
    enc.packet();
    let second = enc.page(&[0xBB, 0xCC]).unwrap();
    assert_eq!(second.duration, 120_000_000);
    assert_eq!(second.id, 1);
    // the accumulator starts over
    enc.packet();
    let third = enc.page(&[0xDD]).unwrap();
    assert_eq!(third.duration, 60_000_000);
    assert_eq!(third.id, 2);
}

#[test]
fn encoder_with_no_page_limit_flushes_after_every_packet() {
    let mut enc = Encoder::new(STEREO, &options(FrameSize::Ms20, 0)).ok().unwrap();
    assert!(enc.packet().flush);
    assert!(enc.packet().flush);
}

#[test]
fn encoder_pulls_frames_of_the_session_size() {
    let enc = Encoder::new(STEREO, &options(FrameSize::Ms10, 1_000_000_000)).ok().unwrap();
    let mut source = Tone { value: 3, left: 960, chunk: 500, fail: false };
    assert_eq!(enc.pull_frame(&mut source).unwrap().unwrap(), vec![3u32; 960]);
    assert_eq!(enc.pull_frame(&mut source), Ok(None));
}

#[test]
fn pump_sleeps_until_the_page_is_due() {
    let mut pump = Pump::new(1_000, 7_000);
    assert_eq!(pump.next_pull(), 1_000);
    assert_eq!(pump.wait(1_000), 0);
    pump.advance(500);
    assert_eq!(pump.next_pull(), 1_500);
    assert_eq!(pump.wait(1_100), 400);
    assert_eq!(pump.next_pull(), 1_500);
    assert_eq!(pump.wait(1_500), 0);
    assert_eq!(pump.wait(1_600), 0);
    assert_eq!(pump.next_pull(), 1_500);
}

#[test]
fn pump_snaps_forward_after_a_stall() {
    let mut pump = Pump::new(1_000, 7_000);
    // 6999 behind: nothing is corrected
    assert_eq!(pump.wait(7_999), 0);
    assert_eq!(pump.next_pull(), 1_000);
    // exactly one window behind: stays where it is
    assert_eq!(pump.wait(8_000), 0);
    assert_eq!(pump.next_pull(), 1_000);
    // more than one window behind: one window before now
    assert_eq!(pump.wait(20_000), 0);
    assert_eq!(pump.next_pull(), 13_000);
}

#[test]
fn pump_advance_saturates() {
    let mut pump = Pump::new(u64::MAX - 5, 10);
    pump.advance(3);
    assert_eq!(pump.next_pull(), u64::MAX - 2);
    pump.advance(3);
    assert_eq!(pump.next_pull(), u64::MAX);
}

#[test]
fn absorb_tells_how_the_frame_stands() {
    let enc = OpusEncoder::new(
        AudioFormat { channels: 1, sample_rate: 8000 },
        &options(FrameSize::Ms2Half, 1_000_000_000),
    )
    .ok()
    .unwrap();
    let mut collected: Vec<Sample> = Vec::new();
    assert_eq!(enc.absorb(&mut collected, Vec::new()), Progress::Exhausted);
    assert!(collected.is_empty());
    assert_eq!(enc.absorb(&mut collected, vec![1; 19]), Progress::More);
    assert_eq!(collected, vec![1u32; 19]);
    assert_eq!(enc.absorb(&mut collected, Vec::new()), Progress::Ended);
    assert_eq!(collected, vec![1u32; 19]);
    assert_eq!(enc.absorb(&mut collected, vec![2]), Progress::Full);
    let mut expected = vec![1u32; 19];
    expected.push(2);
    assert_eq!(collected, expected);
}

#[test]
fn finish_frame_cuts_what_is_too_long() {
    let enc = OpusEncoder::new(
        AudioFormat { channels: 1, sample_rate: 8000 },
        &options(FrameSize::Ms2Half, 1_000_000_000),
    )
    .ok()
    .unwrap();
    let long: Vec<Sample> = (1..=25u32).collect();
    assert_eq!(enc.finish_frame(long), (1..=20u32).collect::<Vec<Sample>>());
}

fn small() -> OpusEncoder {
    OpusEncoder::new(
        AudioFormat { channels: 1, sample_rate: 8000 },
        &options(FrameSize::Ms2Half, 1_000_000_000),
    )
    .ok()
    .unwrap()
}

#[test]
fn wanted_is_what_the_frame_still_lacks() {
    let enc = small();
    assert_eq!(enc.frame_size(), 20);
    assert_eq!(enc.wanted(&Vec::new()), 20);
    assert_eq!(enc.wanted(&vec![1; 19]), 1);
    assert_eq!(enc.wanted(&vec![1; 20]), 0);
    assert_eq!(enc.wanted(&vec![1; 25]), 0);
}

#[test]
fn gather_hands_the_error_of_the_source_on() {
    let enc = small();
    match enc.gather(vec![1, 2], Err(SourceError::Decode)) {
        Gathered::Done(result) => assert_eq!(result, Err(SourceError::Decode)),
        Gathered::More(_) => panic!("the pull is over"),
    }
    match enc.gather(Vec::new(), Err(SourceError::Fetch)) {
        Gathered::Done(result) => assert_eq!(result, Err(SourceError::Fetch)),
        Gathered::More(_) => panic!("the pull is over"),
    }
}

#[test]
fn gather_makes_no_frame_of_a_source_that_gave_nothing() {
    let enc = small();
    match enc.gather(Vec::new(), Ok(Vec::new())) {
        Gathered::Done(result) => assert_eq!(result, Ok(None)),
        Gathered::More(_) => panic!("the pull is over"),
    }
}

#[test]
fn gather_asks_again_while_the_frame_is_short() {
    let enc = small();
    match enc.gather(vec![1, 2], Ok(vec![3, 4, 5])) {
        Gathered::More(collected) => assert_eq!(collected, vec![1, 2, 3, 4, 5]),
        Gathered::Done(_) => panic!("the frame is short"),
    }
}

#[test]
fn gather_finishes_a_full_frame() {
    let enc = small();
    let collected: Vec<Sample> = (1..=15u32).collect();
    let part: Vec<Sample> = (16..=20u32).collect();
    match enc.gather(collected, Ok(part)) {
        Gathered::Done(result) => {
            assert_eq!(result, Ok(Some((1..=20u32).collect::<Vec<Sample>>())))
        }
        Gathered::More(_) => panic!("the frame is full"),
    }
    // a frame of silence is not handed on as it is
    let mut patched = vec![0u32; 20];
    patched[0] = EPSILON;
    match enc.gather(vec![0; 10], Ok(vec![0; 10])) {
        Gathered::Done(result) => assert_eq!(result, Ok(Some(patched))),
        Gathered::More(_) => panic!("the frame is full"),
    }
}

#[test]
fn gather_pads_the_frame_that_the_source_ended_in() {
    let enc = small();
    let mut expected = vec![0u32; 20];
    expected[0] = 7;
    expected[1] = 8;
    match enc.gather(vec![7, 8], Ok(Vec::new())) {
        Gathered::Done(result) => assert_eq!(result, Ok(Some(expected))),
        Gathered::More(_) => panic!("the source has ended"),
    }
}

#[test]
fn page_duration_is_samples_over_rate() {
    // one frame of 20 ms lasts 20 ms at every rate
    for rate in [8000u32, 12000, 16000, 24000, 48000] {
        let format = AudioFormat { channels: 2, sample_rate: rate };
        let mut enc = Encoder::new(format, &options(FrameSize::Ms20, 1_000_000_000)).ok().unwrap();
        enc.packet();
        assert_eq!(enc.page(&[1]).unwrap().duration, 20_000_000);
        // and fifty of them last a second
        for _ in 0..50 {
            enc.packet();
        }
        assert_eq!(enc.page(&[1]).unwrap().duration, 1_000_000_000);
    }
}

#[test]
fn page_duration_is_rounded_down() {
    // 2.5 ms at 12 kHz are 30 samples; seven frames are 210 samples, which
    // last 17.5 ms
    let format = AudioFormat { channels: 1, sample_rate: 12000 };
    let mut enc = Encoder::new(format, &options(FrameSize::Ms2Half, 1_000_000_000)).ok().unwrap();
    for _ in 0..7 {
        enc.packet();
    }
    assert_eq!(enc.page(&[1]).unwrap().duration, 17_500_000);
    // one frame of 5 ms at 24 kHz: 120 samples, 5 ms
    let format = AudioFormat { channels: 1, sample_rate: 24000 };
    let mut enc = Encoder::new(format, &options(FrameSize::Ms5, 1_000_000_000)).ok().unwrap();
    enc.packet();
    assert_eq!(enc.page(&[1]).unwrap().duration, 5_000_000);
}

#[test]
fn page_of_a_minute_is_forced_after_a_minute_of_samples() {
    // 60 s at 48 kHz are 2_880_000 samples: a thousand frames of 60 ms
    let mut enc = Encoder::new(STEREO, &options(FrameSize::Ms60, 60_000_000_000)).ok().unwrap();
    for _ in 0..999 {
        assert!(!enc.packet().flush);
    }
    let put = enc.packet();
    assert!(put.flush);
    assert_eq!(put.header.granulepos, 2_880_000);
    assert_eq!(enc.page(&[1]).unwrap().duration, 60_000_000_000);
}

#[test]
fn page_limit_that_is_no_whole_number_of_samples_is_rounded_down() {
    let format = AudioFormat { channels: 1, sample_rate: 8000 };
    // at 8 kHz a frame of 2.5 ms has 20 samples; 5 ms hold 40 samples
    let mut enc = Encoder::new(format, &options(FrameSize::Ms2Half, 5_000_000)).ok().unwrap();
    assert!(!enc.packet().flush);
    assert!(enc.packet().flush);
    // a nanosecond less than 5.125 ms holds 40 samples still
    let mut enc = Encoder::new(format, &options(FrameSize::Ms2Half, 5_124_999)).ok().unwrap();
    assert!(!enc.packet().flush);
    assert!(enc.packet().flush);
    // 5.125 ms hold 41 samples: the second frame does not reach them
    let mut enc = Encoder::new(format, &options(FrameSize::Ms2Half, 5_125_000)).ok().unwrap();
    assert!(!enc.packet().flush);
    assert!(!enc.packet().flush);
    assert!(enc.packet().flush);
}
