//! Integer parts of the spectrum view: which frequency bins are drawn, and the
//! names of musical notes.
use vstd::prelude::*;

verus! {

/// The last frequency bin that may be drawn for a window of `size` samples
/// when the highest wanted frequency falls in bin `max_n`: that bin, but never
/// past the last bin below half the window (`size / 2 - 1`).
pub open spec fn spectrum_end_spec(size: int, max_n: int) -> int {
    if max_n < size / 2 - 1 {
        max_n
    } else {
        size / 2 - 1
    }
}

/// The drawn spectrum reaches the bin of the highest wanted frequency
/// whenever that bin lies below `size / 2 - 1`, and otherwise stops exactly at
/// `size / 2 - 1`: no other cap applies.
pub proof fn lemma_spectrum_end_reaches_wanted_bin(size: int, max_n: int)
    requires
        size >= 2,
        max_n >= 0,
    ensures
        max_n < size / 2 - 1 ==> spectrum_end_spec(size, max_n) == max_n,
        max_n >= size / 2 - 1 ==> spectrum_end_spec(size, max_n) == size / 2 - 1,
        spectrum_end_spec(size, max_n) <= max_n,
        0 <= spectrum_end_spec(size, max_n) < size / 2,
{
}

/// The bin at which the drawn spectrum stops.
pub fn spectrum_end(size: usize, max_n: usize) -> (end: usize)
    requires
        size >= 2,
    ensures
        end == spectrum_end_spec(size as int, max_n as int),
        end <= max_n,
        end < size / 2,
        max_n < size / 2 - 1 ==> end == max_n,
        max_n >= size / 2 - 1 ==> end == size / 2 - 1,
{
    let max_i: usize = size / 2 - 1;
    if max_n < max_i {
        max_n
    } else {
        max_i
    }
}

/// `bins` are `0, 10, 20, ...`, all below `limit`, and no such number is left
/// out.
pub open spec fn is_every_tenth_below(bins: Seq<usize>, limit: int) -> bool {
    &&& forall|k: int| #![trigger bins[k]] 0 <= k < bins.len() ==> bins[k] == 10 * k && bins[k] < limit
    &&& 10 * bins.len() >= limit
}

/// The bins drawn of a spectrum that stops at `end` and of which `available`
/// bins have been computed: every tenth bin below both.
pub fn spectrum_bins(end: usize, available: usize) -> (bins: Vec<usize>)
    ensures
        is_every_tenth_below(bins@, if end < available { end as int } else { available as int }),
{
    let limit: usize = if end < available {
        end
    } else {
        available
    };
    let mut bins: Vec<usize> = Vec::new();
    let mut i: usize = 0;
    while i < limit
        invariant
            limit == (if end < available { end } else { available }),
            i == 10 * bins.len(),
            forall|k: int| #![trigger bins@[k]] 0 <= k < bins.len() ==> bins@[k] == 10 * k && bins@[k] < limit,
        decreases limit - i,
    {
        bins.push(i);
        if limit - i > 10 {
            i = i + 10;
        } else {
            return bins;
        }
    }
    bins
}

/// The name of the note `steps` semitones above A (55 Hz): the names repeat
/// every twelve steps, from A through G#.
pub open spec fn note_label(steps: int) -> Seq<char> {
    let i: int = steps % 12;
    if i == 0 {
        seq!['A']
    } else if i == 1 {
        seq!['A', '#']
    } else if i == 2 {
        seq!['B']
    } else if i == 3 {
        seq!['C']
    } else if i == 4 {
        seq!['C', '#']
    } else if i == 5 {
        seq!['D']
    } else if i == 6 {
        seq!['D', '#']
    } else if i == 7 {
        seq!['E']
    } else if i == 8 {
        seq!['F']
    } else if i == 9 {
        seq!['F', '#']
    } else if i == 10 {
        seq!['G']
    } else {
        seq!['G', '#']
    }
}

/// Notes an octave apart carry the same name.
pub proof fn lemma_note_label_octave(steps: int)
    requires
        steps >= 0,
    ensures
        note_label(steps + 12) == note_label(steps),
{
    assert((steps + 12) % 12 == steps % 12);
}

/// The name of the note `steps` semitones above A (55 Hz).
pub fn note_name(steps: usize) -> (name: &'static str)
    ensures
        name@ == note_label(steps as int),
{
    let i: usize = steps % 12;
    if i == 0 {
        proof { reveal_strlit("A"); }
        "A"
    } else if i == 1 {
        proof { reveal_strlit("A#"); }
        "A#"
    } else if i == 2 {
        proof { reveal_strlit("B"); }
        "B"
    } else if i == 3 {
        proof { reveal_strlit("C"); }
        "C"
    } else if i == 4 {
        proof { reveal_strlit("C#"); }
        "C#"
    } else if i == 5 {
        proof { reveal_strlit("D"); }
        "D"
    } else if i == 6 {
        proof { reveal_strlit("D#"); }
        "D#"
    } else if i == 7 {
        proof { reveal_strlit("E"); }
        "E"
    } else if i == 8 {
        proof { reveal_strlit("F"); }
        "F"
    } else if i == 9 {
        proof { reveal_strlit("F#"); }
        "F#"
    } else if i == 10 {
        proof { reveal_strlit("G"); }
        "G"
    } else {
        proof { reveal_strlit("G#"); }
        "G#"
    }
}

} // verus!
