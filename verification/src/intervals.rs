//! Interval patterns: the step tables that generate a scale's degree
//! offsets by cumulative sum.  The sum of each pattern is a whole
//! octave, so the cumulative walk lands exactly on the degree table
//! of the matching scale, followed by the octave itself.

use vstd::prelude::*;

verus! {

use crate::scales;

/// The sizes that have an interval pattern.
#[derive(Debug, PartialEq, Eq, Structural, Clone, Copy)]
pub enum ScaleSize {
    Diatonic,
    Blues,
    Pentatonic,
}

/// A named scale given by its step pattern rather than its degree
/// offsets.
pub struct ScaleIntervals {
    pub name: String,
    pub is_minor: bool,
    pub size: ScaleSize,
}

/// The step pattern of each (mode, size) pair, in semitones.
pub open spec fn intervals_spec(is_minor: bool, size: ScaleSize) -> Seq<int> {
    match size {
        ScaleSize::Diatonic => if is_minor {
            seq![2, 1, 2, 2, 1, 2, 2]
        } else {
            seq![2, 2, 1, 2, 2, 2, 1]
        },
        ScaleSize::Blues => if is_minor {
            seq![3, 2, 1, 1, 3, 2]
        } else {
            seq![2, 1, 1, 3, 2, 3]
        },
        ScaleSize::Pentatonic => if is_minor {
            seq![3, 2, 2, 3, 2]
        } else {
            seq![2, 2, 3, 2, 3]
        },
    }
}

/// The scale size a step pattern generates.
pub open spec fn size_as_scale(size: ScaleSize) -> scales::ScaleSize {
    match size {
        ScaleSize::Diatonic => scales::ScaleSize::Diatonic,
        ScaleSize::Blues => scales::ScaleSize::Blues,
        ScaleSize::Pentatonic => scales::ScaleSize::Pentatonic,
    }
}

/// The mode a step pattern generates.
pub open spec fn mode_as_scale(is_minor: bool) -> scales::ScaleType {
    if is_minor {
        scales::ScaleType::Minor
    } else {
        scales::ScaleType::Major
    }
}

impl ScaleIntervals {
    /// The step pattern of this scale, in semitones.
    pub fn intervals(&self) -> (r: Vec<usize>)
        ensures
            r@.len() == intervals_spec(self.is_minor, self.size).len(),
            forall|i: int|
                0 <= i < r@.len() ==> r@[i] as int == intervals_spec(self.is_minor, self.size)[i],
    {
        match self.size {
            ScaleSize::Diatonic => if self.is_minor {
                vec![2, 1, 2, 2, 1, 2, 2]
            } else {
                vec![2, 2, 1, 2, 2, 2, 1]
            },
            ScaleSize::Blues => if self.is_minor {
                vec![3, 2, 1, 1, 3, 2]
            } else {
                vec![2, 1, 1, 3, 2, 3]
            },
            ScaleSize::Pentatonic => if self.is_minor {
                vec![3, 2, 2, 3, 2]
            } else {
                vec![2, 2, 3, 2, 3]
            },
        }
    }

    /// Walk the step pattern from the root: the cumulative sums are
    /// exactly the degree table of the matching scale, and the walk
    /// ends on the octave.
    pub fn notes(&self) -> (r: Vec<usize>)
        ensures
            r@.len() == intervals_spec(self.is_minor, self.size).len() + 1,
            r@[0] == 0usize,
            forall|j: int|
                0 <= j < intervals_spec(self.is_minor, self.size).len() ==> r@[j + 1] as int
                    == r@[j] as int + #[trigger] intervals_spec(self.is_minor, self.size)[j],
            r@.map_values(|x: usize| x as int) == scales::degrees(
                mode_as_scale(self.is_minor),
                size_as_scale(self.size),
            ).push(12),
    {
        let intervals = self.intervals();
        let ghost steps = intervals_spec(self.is_minor, self.size);
        let mut n: usize = 0;
        let mut notes: Vec<usize> = vec![0];
        let mut i: usize = 0;
        while i < intervals.len()
            invariant
                i <= intervals.len(),
                steps == intervals_spec(self.is_minor, self.size),
                intervals@.len() == steps.len(),
                forall|k: int| 0 <= k < intervals@.len() ==> intervals@[k] as int == steps[k],
                notes@.len() == i + 1,
                notes@[0] == 0usize,
                forall|j: int|
                    0 <= j < i ==> notes@[j + 1] as int == notes@[j] as int + #[trigger] steps[j],
                n == notes@[i as int],
                n <= 3 * i,
                forall|k: int| 0 <= k < steps.len() ==> 1 <= #[trigger] steps[k] <= 3,
            decreases intervals.len() - i,
        {
            n = n + intervals[i];
            notes.push(n);
            i += 1;
        }
        proof {
            assert(notes@.map_values(|x: usize| x as int) =~= scales::degrees(
                mode_as_scale(self.is_minor),
                size_as_scale(self.size),
            ).push(12));
        }
        notes
    }
}

/// Walking a step pattern from the root visits exactly the degree
/// table of the matching scale and then the octave: the two ways of
/// writing each scale down agree.
pub proof fn lemma_intervals_match_degrees(is_minor: bool, size: ScaleSize)
    ensures
        cumulative_spec(intervals_spec(is_minor, size)) == scales::degrees(
            mode_as_scale(is_minor),
            size_as_scale(size),
        ).push(12),
{
    assert(cumulative_spec(intervals_spec(is_minor, size)) =~= scales::degrees(
        mode_as_scale(is_minor),
        size_as_scale(size),
    ).push(12)) by {
        reveal_with_fuel(cumulative_spec, 9);
    }
}

/// The cumulative sums of a step pattern, starting from 0.
pub open spec fn cumulative_spec(steps: Seq<int>) -> Seq<int>
    decreases steps.len(),
{
    if steps.len() == 0 {
        seq![0]
    } else {
        let prefix = cumulative_spec(steps.drop_last());
        prefix.push(prefix.last() + steps.last())
    }
}

} // verus!
