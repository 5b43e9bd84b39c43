use fft::coord::PlotCoord;
use fft::wav::{AudioSpec, SampleFormat};
use fft::wav_util::{WaveUtil, PCM};
use std::io::Cursor;

fn mono() -> AudioSpec {
    AudioSpec { channels: 1, sample_rate: 8000, bits_per_sample: 16, sample_format: SampleFormat::Int }
}

fn at(x: f64) -> PlotCoord {
    PlotCoord { floor: x.floor() as i128, ceil: x.ceil() as i128 }
}

#[test]
fn changed_flag_is_never_cleared_by_set_range() {
    let mut pcm = PCM::from_samples((0..40).collect(), mono());
    pcm.set_range(at(2.0), at(20.0));
    assert!(pcm.changed);
    pcm.set_range(at(2.0), at(20.0));
    assert!(pcm.changed);
    assert_eq!(pcm.get_window_range(), (2, 20));
    assert_eq!(pcm.get_samples()[0], (2, 2));
}

#[test]
fn flagged_buffers_load_from_bytes() {
    let spec = hound::WavSpec { channels: 1, sample_rate: 16000, bits_per_sample: 16, sample_format: hound::SampleFormat::Int };
    let mut buf: Vec<u8> = Vec::new();
    {
        let mut w = hound::WavWriter::new(Cursor::new(&mut buf), spec).unwrap();
        w.write_sample(7i16).unwrap();
        w.write_sample(-7i16).unwrap();
        w.finalize().unwrap();
    }
    let pcm = PCM::new(&buf).unwrap();
    assert_eq!(pcm.contents, vec![7, -7]);
    assert_eq!(pcm.sample_rate, 16000);
    let wu = WaveUtil::new(&buf).unwrap();
    assert_eq!(wu.contents, vec![7, -7]);
    assert_eq!(wu.spec.sample_rate, 16000);
    assert!(WaveUtil::new(b"nope").is_none());
}

#[test]
fn changed_window_is_handed_out_once() {
    let mut wu = WaveUtil::from_samples((0..100).collect(), mono());
    assert_eq!(wu.take_changed_window(), None);
    wu.set_range(at(10.0), at(15.0));
    assert_eq!(wu.take_changed_window(), Some(vec![10, 11, 12, 13, 14]));
    assert!(!wu.changed);
    assert_eq!(wu.take_changed_window(), None);
    wu.set_range(at(10.4), at(15.6));
    assert_eq!(wu.take_changed_window(), None);
    wu.set_range(at(11.0), at(15.0));
    assert_eq!(wu.take_changed_window(), Some(vec![11, 12, 13, 14]));
}

#[test]
fn wave_util_window_and_indices() {
    let mut wu = WaveUtil::from_samples((0..100).collect(), mono());
    wu.set_range(at(-5.0), at(500.0));
    assert_eq!(wu.get_min_x_idx(), 0);
    assert_eq!(wu.get_max_x_idx(), 500);
    assert_eq!(wu.get_window_range(), (0, 100));
    assert_eq!(wu.get_samples().len(), 100);
}

#[test]
fn both_buffer_types_draw_alike() {
    let contents: Vec<i16> = (0..30_000).map(|i| (i % 300) as i16).collect();
    let mut w = WaveUtil::from_samples(contents.clone(), mono());
    let mut q = fft::pcm::PCM::from_samples(contents, mono());
    w.set_range(at(100.0), at(25_000.5));
    q.set_range(at(100.0), at(25_000.5));
    assert_eq!(w.get_samples(), q.get_samples());
    assert_eq!(w.get_samples().len(), 6225);
    w.set_range(at(40_000.0), at(3.0));
    q.set_range(at(40_000.0), at(3.0));
    assert_eq!(w.get_window_range(), (3, 3));
    assert_eq!(w.get_samples(), q.get_samples());
}
