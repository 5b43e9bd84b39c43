//! Sample buffers whose change flag, once set by a moved window, stays set
//! until the spectrum of the window is taken.
use vstd::prelude::*;
use crate::coord::PlotCoord;
use crate::wav::{AudioSpec, load_wav, wav_decoding};
use crate::window::{
    lemma_plotted_window_unique,
    is_plotted_window,
    plot_samples,
    window_end,
    window_range,
    window_samples,
    window_start,
};

verus! {

/// The bounds and the `changed` flag after `set_range(min, max)` on a buffer
/// whose bounds were `old_min`, `old_max` and whose flag was `old_changed`:
/// the bounds are taken, and the flag is set, when one of them truncates to
/// another index than before; the flag is never cleared here.
pub open spec fn sticky_set_range_outcome(
    old_min: PlotCoord,
    old_max: PlotCoord,
    old_changed: bool,
    min: PlotCoord,
    max: PlotCoord,
) -> (PlotCoord, PlotCoord, bool) {
    if old_min.trunc_index() != min.trunc_index() || old_max.trunc_index() != max.trunc_index() {
        (min, max, true)
    } else {
        (old_min, old_max, old_changed)
    }
}

/// A move of either bound alone to another index sets the flag and takes the
/// new bounds; when neither index moves, flag and bounds stay as they were.
pub proof fn lemma_sticky_set_range_records_each_bound(
    old_min: PlotCoord,
    old_max: PlotCoord,
    old_changed: bool,
    min: PlotCoord,
    max: PlotCoord,
)
    ensures
        old_min.trunc_index() != min.trunc_index() ==> sticky_set_range_outcome(
            old_min,
            old_max,
            old_changed,
            min,
            max,
        ) == (min, max, true),
        old_max.trunc_index() != max.trunc_index() ==> sticky_set_range_outcome(
            old_min,
            old_max,
            old_changed,
            min,
            max,
        ) == (min, max, true),
        old_min.trunc_index() == min.trunc_index() && old_max.trunc_index() == max.trunc_index()
            ==> sticky_set_range_outcome(old_min, old_max, old_changed, min, max) == (
            old_min,
            old_max,
            old_changed,
        ),
{
}

/// Once set, the `changed` flag stays set through any number of
/// `set_range` calls on these buffers.
pub proof fn lemma_changed_is_sticky(
    old_min: PlotCoord,
    old_max: PlotCoord,
    min: PlotCoord,
    max: PlotCoord,
)
    ensures
        sticky_set_range_outcome(old_min, old_max, true, min, max).2,
{
}

/// Samples of a WAV file and the part of them that the plot shows.
pub struct PCM {
    /// All samples, channels interleaved.
    pub contents: Vec<i16>,
    /// Samples per second.
    pub sample_rate: u32,
    /// Left bound of the plot's visible range.
    pub min: PlotCoord,
    /// Right bound of the plot's visible range.
    pub max: PlotCoord,
    /// Whether a `set_range` moved the window since the flag was last
    /// cleared.
    pub changed: bool,
}

impl PCM {
    /// `self` holds `samples` at the rate of `spec`, with both plot bounds at
    /// the origin and no change recorded.
    pub open spec fn is_fresh(&self, samples: Seq<i16>, spec: AudioSpec) -> bool {
        &&& self.contents@ == samples
        &&& self.sample_rate == spec.sample_rate
        &&& self.min == PlotCoord { floor: 0, ceil: 0 }
        &&& self.max == PlotCoord { floor: 0, ceil: 0 }
        &&& !self.changed
    }

    /// First buffer index of the visible window, never past its end.
    pub open spec fn window_start(&self) -> int {
        window_start(self.min, self.max, self.contents.len() as nat)
    }

    /// End (exclusive) of the visible window.
    pub open spec fn window_end(&self) -> int {
        window_end(self.max, self.contents.len() as nat)
    }

    /// A buffer of the samples and rate of a decoded file, before any plot
    /// bounds are known.
    pub fn from_samples(contents: Vec<i16>, spec: AudioSpec) -> (p: PCM)
        ensures
            p.is_fresh(contents@, spec),
    {
        PCM {
            contents,
            sample_rate: spec.sample_rate,
            min: PlotCoord::origin(),
            max: PlotCoord::origin(),
            changed: false,
        }
    }

    /// The buffer of the WAV file whose bytes are given; `None` where the
    /// file cannot be decoded into 16-bit samples.
    pub fn new(wav_bytes: &[u8]) -> (r: Option<PCM>)
        ensures
            r is Some <==> wav_decoding(wav_bytes@) is Some,
            r matches Some(p) ==> p.is_fresh(
                wav_decoding(wav_bytes@).unwrap().0,
                wav_decoding(wav_bytes@).unwrap().1,
            ),
    {
        match load_wav(wav_bytes) {
            Some((contents, spec)) => Some(PCM::from_samples(contents, spec)),
            None => None,
        }
    }

    /// Takes the plot bounds when either truncates to another index than
    /// before, and then records the change.
    pub fn set_range(&mut self, min: PlotCoord, max: PlotCoord)
        ensures
            (final(self).min, final(self).max, final(self).changed) == sticky_set_range_outcome(
                old(self).min,
                old(self).max,
                old(self).changed,
                min,
                max,
            ),
            old(self).min.trunc_index() != min.trunc_index() ==> final(self).changed
                && final(self).min == min && final(self).max == max,
            old(self).max.trunc_index() != max.trunc_index() ==> final(self).changed
                && final(self).min == min && final(self).max == max,
            old(self).min.trunc_index() == min.trunc_index() && old(self).max.trunc_index()
                == max.trunc_index() ==> final(self).changed == old(self).changed
                && final(self).min == old(self).min && final(self).max == old(self).max,
            final(self).contents@ == old(self).contents@,
            final(self).sample_rate == old(self).sample_rate,
    {
        if self.get_min_x_idx() != min.to_index() || self.get_max_x_idx() != max.to_index() {
            self.changed = true;
            self.min = min;
            self.max = max;
        }
    }

    /// Get min x axis index of window.
    pub fn get_min_x_idx(&self) -> (r: usize)
        ensures
            r == self.min.trunc_index(),
    {
        self.min.to_index()
    }

    /// Get max x axis index of window.
    pub fn get_max_x_idx(&self) -> (r: usize)
        ensures
            r == self.max.trunc_index(),
    {
        self.max.to_index()
    }

    /// Translate window range to buffer range, constrained by buffer limits.
    pub fn get_window_range(&self) -> (r: (usize, usize))
        ensures
            r.0 == self.window_start(),
            r.1 == self.window_end(),
            r.0 <= r.1 <= self.contents.len(),
            self.max.floor >= self.contents.len() ==> r.1 == self.contents.len(),
            self.max.ceil <= 1 ==> r.1 == self.contents.len(),
            self.max.floor < self.contents.len() && self.max.ceil > 1 ==> r.1
                == self.max.trunc_index(),
            self.min.ceil <= 0 ==> r.0 == 0,
            self.min.ceil > 0 && self.min.trunc_index() <= r.1 ==> r.0 == self.min.trunc_index(),
            self.min.ceil > 0 && self.min.trunc_index() > r.1 ==> r.0 == r.1,
    {
        window_range(&self.min, &self.max, self.contents.len())
    }

    /// Get samples from current window in the format that the plot expects:
    /// each point is a sample's index and value.
    pub fn get_samples(&self) -> (points: Vec<(usize, i16)>)
        ensures
            is_plotted_window(points@, self.contents@, self.window_start(), self.window_end()),
            self.window_end() - self.window_start() > 50_000 ==> (forall|k: int| 0 <= k < points@.len() ==> #[trigger] points@[k].0 == self.window_start() + 10 * k)
                && self.window_start() + 10 * points@.len() >= self.window_end(),
            10_000 < self.window_end() - self.window_start() <= 50_000 ==> (forall|k: int| 0 <= k < points@.len() ==> #[trigger] points@[k].0 == self.window_start() + 4 * k)
                && self.window_start() + 4 * points@.len() >= self.window_end(),
            0 < self.window_end() - self.window_start() <= 10_000 ==> points@.len() == self.window_end() - self.window_start() && forall|k: int| 0 <= k < points@.len() ==> #[trigger] points@[k].0 == self.window_start() + k,
            self.window_end() == self.window_start() ==> points@.len() == self.contents@.len() && forall|k: int| 0 <= k < points@.len() ==> #[trigger] points@[k].0 == k,
            forall|k: int| 0 <= k < points@.len() ==> #[trigger] points@[k].1 == self.contents@[points@[k].0 as int] && points@[k].0 < self.contents@.len(),
    {
        plot_samples(&self.contents, &self.min, &self.max)
    }
}

/// Samples of a WAV file, the window of them that the plot shows, and whether
/// the spectrum of that window has to be computed again.
pub struct WaveUtil {
    /// All samples, channels interleaved.
    pub contents: Vec<i16>,
    /// The header of the decoded file.
    pub spec: AudioSpec,
    /// Left bound of the plot's visible range.
    pub min: PlotCoord,
    /// Right bound of the plot's visible range.
    pub max: PlotCoord,
    /// Whether the window moved since its spectrum was last computed.
    pub changed: bool,
}

impl WaveUtil {
    /// `self` holds `samples` and `spec`, with both plot bounds at the origin
    /// and no change recorded.
    pub open spec fn is_fresh(&self, samples: Seq<i16>, spec: AudioSpec) -> bool {
        &&& self.contents@ == samples
        &&& self.spec == spec
        &&& self.min == PlotCoord { floor: 0, ceil: 0 }
        &&& self.max == PlotCoord { floor: 0, ceil: 0 }
        &&& !self.changed
    }

    /// First buffer index of the visible window, never past its end.
    pub open spec fn window_start(&self) -> int {
        window_start(self.min, self.max, self.contents.len() as nat)
    }

    /// End (exclusive) of the visible window.
    pub open spec fn window_end(&self) -> int {
        window_end(self.max, self.contents.len() as nat)
    }

    /// A buffer of the samples and header of a decoded file, before any plot
    /// bounds are known.
    pub fn from_samples(contents: Vec<i16>, spec: AudioSpec) -> (w: WaveUtil)
        ensures
            w.is_fresh(contents@, spec),
    {
        WaveUtil {
            contents,
            spec,
            min: PlotCoord::origin(),
            max: PlotCoord::origin(),
            changed: false,
        }
    }

    /// The buffer of the WAV file whose bytes are given; `None` where the
    /// file cannot be decoded into 16-bit samples.
    pub fn new(wav_bytes: &[u8]) -> (r: Option<WaveUtil>)
        ensures
            r is Some <==> wav_decoding(wav_bytes@) is Some,
            r matches Some(w) ==> w.is_fresh(
                wav_decoding(wav_bytes@).unwrap().0,
                wav_decoding(wav_bytes@).unwrap().1,
            ),
    {
        match load_wav(wav_bytes) {
            Some((contents, spec)) => Some(WaveUtil::from_samples(contents, spec)),
            None => None,
        }
    }

    /// Takes the plot bounds when either truncates to another index than
    /// before, and then records the change.
    pub fn set_range(&mut self, min: PlotCoord, max: PlotCoord)
        ensures
            (final(self).min, final(self).max, final(self).changed) == sticky_set_range_outcome(
                old(self).min,
                old(self).max,
                old(self).changed,
                min,
                max,
            ),
            old(self).min.trunc_index() != min.trunc_index() ==> final(self).changed
                && final(self).min == min && final(self).max == max,
            old(self).max.trunc_index() != max.trunc_index() ==> final(self).changed
                && final(self).min == min && final(self).max == max,
            old(self).min.trunc_index() == min.trunc_index() && old(self).max.trunc_index()
                == max.trunc_index() ==> final(self).changed == old(self).changed
                && final(self).min == old(self).min && final(self).max == old(self).max,
            final(self).contents@ == old(self).contents@,
            final(self).spec == old(self).spec,
    {
        if self.get_min_x_idx() != min.to_index() || self.get_max_x_idx() != max.to_index() {
            self.changed = true;
            self.min = min;
            self.max = max;
        }
    }

    /// Get min x axis index of window.
    pub fn get_min_x_idx(&self) -> (r: usize)
        ensures
            r == self.min.trunc_index(),
    {
        self.min.to_index()
    }

    /// Get max x axis index of window.
    pub fn get_max_x_idx(&self) -> (r: usize)
        ensures
            r == self.max.trunc_index(),
    {
        self.max.to_index()
    }

    /// Translate window range to buffer range, constrained by buffer limits.
    pub fn get_window_range(&self) -> (r: (usize, usize))
        ensures
            r.0 == self.window_start(),
            r.1 == self.window_end(),
            r.0 <= r.1 <= self.contents.len(),
            self.max.floor >= self.contents.len() ==> r.1 == self.contents.len(),
            self.max.ceil <= 1 ==> r.1 == self.contents.len(),
            self.max.floor < self.contents.len() && self.max.ceil > 1 ==> r.1
                == self.max.trunc_index(),
            self.min.ceil <= 0 ==> r.0 == 0,
            self.min.ceil > 0 && self.min.trunc_index() <= r.1 ==> r.0 == self.min.trunc_index(),
            self.min.ceil > 0 && self.min.trunc_index() > r.1 ==> r.0 == r.1,
    {
        window_range(&self.min, &self.max, self.contents.len())
    }

    /// Get samples from current window in the format that the plot expects:
    /// each point is a sample's index and value.
    pub fn get_samples(&self) -> (points: Vec<(usize, i16)>)
        ensures
            is_plotted_window(points@, self.contents@, self.window_start(), self.window_end()),
            self.window_end() - self.window_start() > 50_000 ==> (forall|k: int| 0 <= k < points@.len() ==> #[trigger] points@[k].0 == self.window_start() + 10 * k)
                && self.window_start() + 10 * points@.len() >= self.window_end(),
            10_000 < self.window_end() - self.window_start() <= 50_000 ==> (forall|k: int| 0 <= k < points@.len() ==> #[trigger] points@[k].0 == self.window_start() + 4 * k)
                && self.window_start() + 4 * points@.len() >= self.window_end(),
            0 < self.window_end() - self.window_start() <= 10_000 ==> points@.len() == self.window_end() - self.window_start() && forall|k: int| 0 <= k < points@.len() ==> #[trigger] points@[k].0 == self.window_start() + k,
            self.window_end() == self.window_start() ==> points@.len() == self.contents@.len() && forall|k: int| 0 <= k < points@.len() ==> #[trigger] points@[k].0 == k,
            forall|k: int| 0 <= k < points@.len() ==> #[trigger] points@[k].1 == self.contents@[points@[k].0 as int] && points@[k].0 < self.contents@.len(),
    {
        plot_samples(&self.contents, &self.min, &self.max)
    }

    /// The samples whose spectrum must be computed now: those of the visible
    /// window when it moved since the spectrum was last computed, and then the
    /// change counts as handled; `None`, and nothing altered, otherwise.
    pub fn take_changed_window(&mut self) -> (r: Option<Vec<i16>>)
        ensures
            old(self).changed ==> (r matches Some(w) && w@ == old(self).contents@.subrange(
                old(self).window_start(),
                old(self).window_end(),
            )),
            !old(self).changed ==> r is None,
            !final(self).changed,
            final(self).min == old(self).min,
            final(self).max == old(self).max,
            final(self).contents@ == old(self).contents@,
            final(self).spec == old(self).spec,
    {
        if self.changed {
            let w = window_samples(&self.contents, &self.min, &self.max);
            self.changed = false;
            Some(w)
        } else {
            None
        }
    }
}

/// The spectrum of a window is computed once per move: once the changed window
/// was handed out, bounds that truncate to the same indices leave the buffer
/// as it was and do not ask for the spectrum again.
pub proof fn lemma_window_taken_once(
    old_min: PlotCoord,
    old_max: PlotCoord,
    min: PlotCoord,
    max: PlotCoord,
)
    requires
        min.trunc_index() == old_min.trunc_index(),
        max.trunc_index() == old_max.trunc_index(),
    ensures
        sticky_set_range_outcome(old_min, old_max, false, min, max) == (old_min, old_max, false),
{
}

/// A `WaveUtil` and a `crate::pcm::PCM` that hold the same samples and plot
/// bounds draw the same points.
pub proof fn lemma_buffers_draw_alike(
    w: WaveUtil,
    q: crate::pcm::PCM,
    w_points: Seq<(usize, i16)>,
    q_points: Seq<(usize, i16)>,
)
    requires
        w.contents@ == q.contents@,
        w.min == q.min,
        w.max == q.max,
        is_plotted_window(w_points, w.contents@, w.window_start(), w.window_end()),
        is_plotted_window(q_points, q.contents@, q.window_start(), q.window_end()),
    ensures
        w_points == q_points,
{
    lemma_plotted_window_unique(w_points, q_points, w.contents@, w.window_start(), w.window_end());
}

} // verus!
