//! A decoded sample buffer and the window of it that a plot shows.
use vstd::prelude::*;
use crate::coord::PlotCoord;
use crate::wav::{AudioSpec, load_wav, wav_decoding};
use crate::window::{
    is_plotted_window,
    plot_samples,
    window_end,
    window_range,
    window_samples,
    window_start,
};

verus! {

/// The left and right plot bounds and the `changed` flag after a call of
/// `set_range(min, max)` on bounds `old_min`, `old_max`: the bounds are taken,
/// and the call counts as a change, exactly when one of them truncates to
/// another index than before.
pub open spec fn set_range_outcome(
    old_min: PlotCoord,
    old_max: PlotCoord,
    min: PlotCoord,
    max: PlotCoord,
) -> (PlotCoord, PlotCoord, bool) {
    if old_min.trunc_index() != min.trunc_index() || old_max.trunc_index() != max.trunc_index() {
        (min, max, true)
    } else {
        (old_min, old_max, false)
    }
}

/// A move of either bound alone to another index is recorded, and the new
/// bounds taken; when neither index moves, nothing is recorded and the bounds
/// are kept.
pub proof fn lemma_set_range_records_each_bound(
    old_min: PlotCoord,
    old_max: PlotCoord,
    min: PlotCoord,
    max: PlotCoord,
)
    ensures
        old_min.trunc_index() != min.trunc_index() ==> set_range_outcome(old_min, old_max, min, max)
            == (min, max, true),
        old_max.trunc_index() != max.trunc_index() ==> set_range_outcome(old_min, old_max, min, max)
            == (min, max, true),
        old_min.trunc_index() == min.trunc_index() && old_max.trunc_index() == max.trunc_index()
            ==> set_range_outcome(old_min, old_max, min, max) == (old_min, old_max, false),
{
}

/// A set of bounds that `set_range` keeps leads, given the same bounds again,
/// to no change; and after either call the stored bounds truncate to the
/// indices of the given ones.
pub proof fn lemma_set_range_settles(
    old_min: PlotCoord,
    old_max: PlotCoord,
    min: PlotCoord,
    max: PlotCoord,
)
    ensures
        ({
            let (min1, max1, _) = set_range_outcome(old_min, old_max, min, max);
            let (min2, max2, changed2) = set_range_outcome(min1, max1, min, max);
            &&& min1.trunc_index() == min.trunc_index()
            &&& max1.trunc_index() == max.trunc_index()
            &&& min2 == min1
            &&& max2 == max1
            &&& !changed2
        }),
{
}

/// Samples of a WAV file and the part of them that the plot shows.
pub struct PCM {
    /// All samples, channels interleaved.
    pub contents: Vec<i16>,
    /// Samples per second.
    pub sample_rate: u32,
    /// Left bound of the plot's visible range.
    pub min: PlotCoord,
    /// Right bound of the plot's visible range.
    pub max: PlotCoord,
    /// Whether the last `set_range` moved the window.
    pub changed: bool,
}

impl PCM {
    /// `self` holds `samples` at the rate of `spec`, with both plot bounds at
    /// the origin and no change recorded.
    pub open spec fn is_fresh(&self, samples: Seq<i16>, spec: AudioSpec) -> bool {
        &&& self.contents@ == samples
        &&& self.sample_rate == spec.sample_rate
        &&& self.min == PlotCoord { floor: 0, ceil: 0 }
        &&& self.max == PlotCoord { floor: 0, ceil: 0 }
        &&& !self.changed
    }

    /// First buffer index of the visible window, never past its end.
    pub open spec fn window_start(&self) -> int {
        window_start(self.min, self.max, self.contents.len() as nat)
    }

    /// End (exclusive) of the visible window.
    pub open spec fn window_end(&self) -> int {
        window_end(self.max, self.contents.len() as nat)
    }

    /// A buffer of the samples and rate of a decoded file, before any plot
    /// bounds are known.
    pub fn from_samples(contents: Vec<i16>, spec: AudioSpec) -> (p: PCM)
        ensures
            p.is_fresh(contents@, spec),
    {
        PCM {
            contents,
            sample_rate: spec.sample_rate,
            min: PlotCoord::origin(),
            max: PlotCoord::origin(),
            changed: false,
        }
    }

    /// The buffer of the WAV file whose bytes are given; `None` where the
    /// file cannot be decoded into 16-bit samples.
    pub fn new(wav_bytes: &[u8]) -> (r: Option<PCM>)
        ensures
            r is Some <==> wav_decoding(wav_bytes@) is Some,
            r matches Some(p) ==> p.is_fresh(
                wav_decoding(wav_bytes@).unwrap().0,
                wav_decoding(wav_bytes@).unwrap().1,
            ),
    {
        match load_wav(wav_bytes) {
            Some((contents, spec)) => Some(PCM::from_samples(contents, spec)),
            None => None,
        }
    }

    /// Update window range.
    /// Alters internal changed state: set when either bound truncates to
    /// another index than before, cleared otherwise.
    pub fn set_range(&mut self, min: PlotCoord, max: PlotCoord)
        ensures
            (final(self).min, final(self).max, final(self).changed) == set_range_outcome(
                old(self).min,
                old(self).max,
                min,
                max,
            ),
            old(self).min.trunc_index() != min.trunc_index() ==> final(self).changed
                && final(self).min == min && final(self).max == max,
            old(self).max.trunc_index() != max.trunc_index() ==> final(self).changed
                && final(self).min == min && final(self).max == max,
            old(self).min.trunc_index() == min.trunc_index() && old(self).max.trunc_index()
                == max.trunc_index() ==> !final(self).changed && final(self).min == old(self).min
                && final(self).max == old(self).max,
            final(self).contents == old(self).contents,
            final(self).sample_rate == old(self).sample_rate,
    {
        if self.get_min_x_idx() != min.to_index() || self.get_max_x_idx() != max.to_index() {
            self.changed = true;
            self.min = min;
            self.max = max;
        } else {
            self.changed = false;
        }
    }

    /// Get min x axis index of window.
    pub fn get_min_x_idx(&self) -> (r: usize)
        ensures
            r == self.min.trunc_index(),
    {
        self.min.to_index()
    }

    /// Get max x axis index of window.
    pub fn get_max_x_idx(&self) -> (r: usize)
        ensures
            r == self.max.trunc_index(),
    {
        self.max.to_index()
    }

    /// Translate window range to buffer range, constrained by buffer limits.
    pub fn get_window_range(&self) -> (r: (usize, usize))
        ensures
            r.0 == self.window_start(),
            r.1 == self.window_end(),
            r.0 <= r.1 <= self.contents.len(),
            self.max.floor >= self.contents.len() ==> r.1 == self.contents.len(),
            self.max.ceil <= 1 ==> r.1 == self.contents.len(),
            self.max.floor < self.contents.len() && self.max.ceil > 1 ==> r.1
                == self.max.trunc_index(),
            self.min.ceil <= 0 ==> r.0 == 0,
            self.min.ceil > 0 && self.min.trunc_index() <= r.1 ==> r.0 == self.min.trunc_index(),
            self.min.ceil > 0 && self.min.trunc_index() > r.1 ==> r.0 == r.1,
    {
        window_range(&self.min, &self.max, self.contents.len())
    }

    /// Get samples from current window in the format that the plot expects:
    /// each point is a sample's index and value.
    pub fn get_samples(&self) -> (points: Vec<(usize, i16)>)
        ensures
            is_plotted_window(points@, self.contents@, self.window_start(), self.window_end()),
            self.window_end() - self.window_start() > 50_000 ==> (forall|k: int| 0 <= k < points@.len() ==> #[trigger] points@[k].0 == self.window_start() + 10 * k)
                && self.window_start() + 10 * points@.len() >= self.window_end(),
            10_000 < self.window_end() - self.window_start() <= 50_000 ==> (forall|k: int| 0 <= k < points@.len() ==> #[trigger] points@[k].0 == self.window_start() + 4 * k)
                && self.window_start() + 4 * points@.len() >= self.window_end(),
            0 < self.window_end() - self.window_start() <= 10_000 ==> points@.len() == self.window_end() - self.window_start() && forall|k: int| 0 <= k < points@.len() ==> #[trigger] points@[k].0 == self.window_start() + k,
            self.window_end() == self.window_start() ==> points@.len() == self.contents@.len() && forall|k: int| 0 <= k < points@.len() ==> #[trigger] points@[k].0 == k,
            forall|k: int| 0 <= k < points@.len() ==> #[trigger] points@[k].1 == self.contents@[points@[k].0 as int] && points@[k].0 < self.contents@.len(),
    {
        plot_samples(&self.contents, &self.min, &self.max)
    }

    /// The samples of the visible window, the input of its spectrum.
    pub fn window_contents(&self) -> (w: Vec<i16>)
        ensures
            w@ == self.contents@.subrange(self.window_start(), self.window_end()),
    {
        window_samples(&self.contents, &self.min, &self.max)
    }
}

} // verus!
