use fft::transform::{note_name, spectrum_bins, spectrum_end};

#[test]
fn spectrum_end_stops_below_half_window() {
    assert_eq!(spectrum_end(1024, 100), 100);
    assert_eq!(spectrum_end(1024, 511), 511);
    assert_eq!(spectrum_end(1024, 600), 511);
    assert_eq!(spectrum_end(2, 5), 0);
    assert_eq!(spectrum_end(3, 0), 0);
}

#[test]
fn spectrum_bins_are_every_tenth() {
    assert_eq!(spectrum_bins(35, 100), vec![0, 10, 20, 30]);
    assert_eq!(spectrum_bins(100, 21), vec![0, 10, 20]);
    assert_eq!(spectrum_bins(30, 100), vec![0, 10, 20]);
    assert_eq!(spectrum_bins(1, 1), vec![0]);
    assert_eq!(spectrum_bins(0, 100), Vec::<usize>::new());
    assert_eq!(spectrum_bins(50, 0), Vec::<usize>::new());
}

#[test]
fn note_names_run_from_a() {
    let names: Vec<&str> = (0..12).map(note_name).collect();
    assert_eq!(names, vec!["A", "A#", "B", "C", "C#", "D", "D#", "E", "F", "F#", "G", "G#"]);
}

#[test]
fn note_names_repeat_each_octave() {
    for s in 0..48usize {
        assert_eq!(note_name(s), note_name(s + 12));
    }
    // 440 Hz is 36 semitones above 55 Hz
    assert_eq!(note_name(36), "A");
    assert_eq!(note_name(usize::MAX), note_name(usize::MAX % 12));
}
