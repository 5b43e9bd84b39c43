use fft::coord::PlotCoord;
use fft::pcm::PCM;
use fft::wav::{load_wav, AudioSpec, SampleFormat};
use std::io::Cursor;

fn wav_bytes(samples: &[i16], channels: u16, sample_rate: u32) -> Vec<u8> {
    let spec = hound::WavSpec {
        channels,
        sample_rate,
        bits_per_sample: 16,
        sample_format: hound::SampleFormat::Int,
    };
    let mut buf: Vec<u8> = Vec::new();
    {
        let mut writer = hound::WavWriter::new(Cursor::new(&mut buf), spec).unwrap();
        for s in samples {
            writer.write_sample(*s).unwrap();
        }
        writer.finalize().unwrap();
    }
    buf
}

fn mono(rate: u32) -> AudioSpec {
    AudioSpec { channels: 1, sample_rate: rate, bits_per_sample: 16, sample_format: SampleFormat::Int }
}

fn at(x: f64) -> PlotCoord {
    PlotCoord { floor: x.floor() as i128, ceil: x.ceil() as i128 }
}

fn ramp(n: usize) -> Vec<i16> {
    (0..n).map(|i| (i % 1000) as i16 - 500).collect()
}

#[test]
fn load_wav_reads_samples_and_header() {
    let bytes = wav_bytes(&[1, -2, 300, -32768, 32767], 1, 44100);
    let (samples, spec) = load_wav(&bytes).unwrap();
    assert_eq!(samples, vec![1, -2, 300, -32768, 32767]);
    assert_eq!(spec, mono(44100));
}

#[test]
fn load_wav_keeps_channels_interleaved() {
    let bytes = wav_bytes(&[10, 20, 11, 21], 2, 8000);
    let (samples, spec) = load_wav(&bytes).unwrap();
    assert_eq!(samples, vec![10, 20, 11, 21]);
    assert_eq!(spec.channels, 2);
    assert_eq!(spec.sample_rate, 8000);
}

#[test]
fn load_wav_refuses_non_wav_bytes() {
    assert!(load_wav(b"this is not a wave file at all").is_none());
    assert!(load_wav(&[]).is_none());
}

#[test]
fn load_wav_refuses_samples_wider_than_16_bits() {
    let spec = hound::WavSpec {
        channels: 1,
        sample_rate: 8000,
        bits_per_sample: 24,
        sample_format: hound::SampleFormat::Int,
    };
    let mut buf: Vec<u8> = Vec::new();
    {
        let mut writer = hound::WavWriter::new(Cursor::new(&mut buf), spec).unwrap();
        writer.write_sample(70000i32).unwrap();
        writer.finalize().unwrap();
    }
    assert!(load_wav(&buf).is_none());
}

#[test]
fn pcm_new_starts_at_origin() {
    let bytes = wav_bytes(&[4, 5, 6], 1, 22050);
    let pcm = PCM::new(&bytes).unwrap();
    assert_eq!(pcm.contents, vec![4, 5, 6]);
    assert_eq!(pcm.sample_rate, 22050);
    assert_eq!(pcm.min, PlotCoord::origin());
    assert_eq!(pcm.max, PlotCoord::origin());
    assert!(!pcm.changed);
    assert!(PCM::new(b"RIFF").is_none());
}

#[test]
fn set_range_records_moves_by_index() {
    let mut pcm = PCM::from_samples(ramp(100), mono(8000));
    pcm.set_range(at(10.5), at(60.2));
    assert!(pcm.changed);
    assert_eq!(pcm.min, at(10.5));
    assert_eq!(pcm.max, at(60.2));
    // same indices, other fractions: no change, bounds kept
    pcm.set_range(at(10.9), at(60.0));
    assert!(!pcm.changed);
    assert_eq!(pcm.min, at(10.5));
    assert_eq!(pcm.max, at(60.2));
    pcm.set_range(at(10.9), at(61.0));
    assert!(pcm.changed);
    assert_eq!(pcm.get_min_x_idx(), 10);
    assert_eq!(pcm.get_max_x_idx(), 61);
}

#[test]
fn set_range_then_same_range_settles() {
    let mut pcm = PCM::from_samples(ramp(50), mono(8000));
    pcm.set_range(at(3.0), at(7.0));
    assert!(pcm.changed);
    pcm.set_range(at(3.0), at(7.0));
    assert!(!pcm.changed);
    assert_eq!(pcm.get_min_x_idx(), 3);
    assert_eq!(pcm.get_max_x_idx(), 7);
}

#[test]
fn indices_truncate_and_saturate() {
    let mut pcm = PCM::from_samples(ramp(10), mono(8000));
    pcm.min = at(-3.7);
    pcm.max = at(2.9);
    assert_eq!(pcm.get_min_x_idx(), 0);
    assert_eq!(pcm.get_max_x_idx(), 2);
    pcm.max = at(1e30);
    assert_eq!(pcm.get_max_x_idx(), usize::MAX);
    pcm.min = at(f64::NAN);
    assert_eq!(pcm.get_min_x_idx(), 0);
}

#[test]
fn window_range_is_clamped_to_buffer() {
    let mut pcm = PCM::from_samples(ramp(100), mono(8000));
    pcm.min = at(-20.0);
    pcm.max = at(250.0);
    assert_eq!(pcm.get_window_range(), (0, 100));
    pcm.min = at(12.3);
    pcm.max = at(40.8);
    assert_eq!(pcm.get_window_range(), (12, 40));
    // a right bound of exactly 1 is not above 1: the window runs to the end
    pcm.max = at(1.0);
    assert_eq!(pcm.get_window_range(), (12, 100));
    // a start past the end is held at the end
    pcm.max = at(1.5);
    assert_eq!(pcm.get_window_range(), (1, 1));
    // a right bound of exactly the length runs to the end
    pcm.max = at(100.0);
    assert_eq!(pcm.get_window_range(), (12, 100));
    pcm.max = at(99.9);
    assert_eq!(pcm.get_window_range(), (12, 99));
    pcm.max = at(f64::NAN);
    assert_eq!(pcm.get_window_range(), (12, 100));
}

#[test]
fn samples_of_small_window_are_all_drawn() {
    let contents = ramp(100);
    let mut pcm = PCM::from_samples(contents.clone(), mono(8000));
    pcm.min = at(5.2);
    pcm.max = at(9.7);
    let pts = pcm.get_samples();
    assert_eq!(pts, vec![(5, contents[5]), (6, contents[6]), (7, contents[7]), (8, contents[8])]);
}

#[test]
fn empty_window_draws_whole_buffer() {
    let contents = vec![3i16, 1, 4, 1, 5];
    let mut pcm = PCM::from_samples(contents.clone(), mono(8000));
    pcm.min = at(2.0);
    pcm.max = at(2.5);
    assert_eq!(pcm.get_window_range(), (2, 2));
    let pts = pcm.get_samples();
    assert_eq!(pts, vec![(0, 3), (1, 1), (2, 4), (3, 1), (4, 5)]);
}

#[test]
fn large_windows_are_thinned() {
    let contents = ramp(120_000);
    let mut pcm = PCM::from_samples(contents.clone(), mono(44100));
    pcm.min = at(0.0);
    pcm.max = at(20_001.0);
    let pts = pcm.get_samples();
    assert_eq!(pts.len(), 5001);
    assert_eq!(pts[1], (4, contents[4]));
    assert_eq!(pts[5000], (20_000, contents[20_000]));
    pcm.min = at(100.0);
    pcm.max = at(f64::INFINITY);
    let pts = pcm.get_samples();
    assert_eq!(pts.len(), 11_990);
    assert_eq!(pts[0], (100, contents[100]));
    assert_eq!(pts[11_989], (119_990, contents[119_990]));
    // 10 000 samples exactly: every sample
    pcm.min = at(0.0);
    pcm.max = at(10_000.0);
    assert_eq!(pcm.get_samples().len(), 10_000);
}

#[test]
fn window_contents_is_the_visible_slice() {
    let contents = ramp(30);
    let mut pcm = PCM::from_samples(contents.clone(), mono(8000));
    pcm.min = at(4.0);
    pcm.max = at(11.0);
    assert_eq!(pcm.window_contents(), contents[4..11].to_vec());
}

#[test]
fn window_start_stays_within_buffer() {
    let contents = vec![8i16, 9];
    let mut pcm = PCM::from_samples(contents.clone(), mono(8000));
    pcm.min = at(20.0);
    pcm.max = at(0.0);
    assert_eq!(pcm.get_window_range(), (2, 2));
    // an empty window draws the whole buffer
    assert_eq!(pcm.get_samples(), vec![(0, 8), (1, 9)]);
    assert_eq!(pcm.window_contents(), Vec::<i16>::new());
    pcm.max = at(1.5);
    assert_eq!(pcm.get_window_range(), (1, 1));
}
