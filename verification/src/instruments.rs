//! Instruments and tunings: named lists of open-string tones, preset
//! catalogs, and the registry that the presentation layer mutates.
//!
//! An open-string tone is an absolute semitone index from a fixed
//! reference (not wrapped to one octave), so that `tone + fret` is
//! the sounded pitch of a fretted position.

use vstd::prelude::*;

verus! {

use vstd::arithmetic::div_mod::lemma_div_nonincreasing;
use vstd::arithmetic::div_mod::lemma_fundamental_div_mod;
use vstd::arithmetic::div_mod::lemma_mod_division_less_than_divisor;

/// A named tuning: the ordered open-string tones of an instrument.
pub struct Tuning {
    pub name: String,
    pub strings: Vec<usize>,
}

/// A named instrument with one or more named tunings and the index
/// of the tuning in use.
pub struct Instrument {
    pub name: String,
    pub tune_index: usize,
    pub tunings: Vec<Tuning>,
}

/// The smallest element of a sequence (0 when it is empty).
pub open spec fn seq_min(s: Seq<int>) -> int
    decreases s.len(),
{
    if s.len() == 0 {
        0
    } else if s.len() == 1 {
        s[0]
    } else {
        let m = seq_min(s.drop_last());
        if s.last() < m {
            s.last()
        } else {
            m
        }
    }
}

/// The uniform lift (a multiple of 12) that brings the smallest
/// shifted tone up to a non-negative value: octaves are added until
/// nothing is below zero.
pub open spec fn wrap_lift_spec(m: int) -> int {
    if m >= 0 {
        0
    } else {
        12 * ((11 - m) / 12)
    }
}

/// Each base tone moved by its per-string shape offset and the
/// uniform transpose.
pub open spec fn shifted_spec(base: Seq<int>, shape: Seq<int>, more: int) -> Seq<int> {
    Seq::new(base.len(), |i: int| base[i] + shape[i] + more)
}

/// The derived tuning: shape offsets and transpose applied to the
/// base tuning, lifted by whole octaves until no string is negative,
/// and mirrored for a left-handed layout when asked.
pub open spec fn derived_strings_spec(
    base: Seq<int>,
    shape: Seq<int>,
    more: int,
    is_left: bool,
) -> Seq<int> {
    let sh = shifted_spec(base, shape, more);
    let lift = wrap_lift_spec(seq_min(sh));
    let out = Seq::new(sh.len(), |i: int| sh[i] + lift);
    if is_left {
        out.reverse()
    } else {
        out
    }
}

/// The smallest element really is a lower bound.
pub proof fn lemma_seq_min_le(s: Seq<int>, i: int)
    requires
        0 <= i < s.len(),
    ensures
        seq_min(s) <= s[i],
    decreases s.len(),
{
    if s.len() > 1 && i < s.len() - 1 {
        lemma_seq_min_le(s.drop_last(), i);
    }
}

/// A lower bound on every element is a lower bound on the minimum.
pub proof fn lemma_seq_min_ge(s: Seq<int>, b: int)
    requires
        s.len() > 0,
        forall|i: int| 0 <= i < s.len() ==> b <= #[trigger] s[i],
    ensures
        b <= seq_min(s),
    decreases s.len(),
{
    if s.len() > 1 {
        lemma_seq_min_ge(s.drop_last(), b);
    }
}

/// The octave lift never overshoots: the smallest lifted tone lands
/// in `[0, 12)`, and the lift is non-negative and bounded.
pub proof fn lemma_wrap_lift(m: int)
    ensures
        wrap_lift_spec(m) >= 0,
        m + wrap_lift_spec(m) >= 0,
        m < 0 ==> m + wrap_lift_spec(m) < 12,
        m < 0 ==> wrap_lift_spec(m) <= 11 - m + 12,
{
    if m < 0 {
        lemma_fundamental_div_mod(11 - m, 12);
        lemma_mod_division_less_than_divisor(11 - m, 12);
        lemma_div_nonincreasing(11 - m, 12);
    }
}

/// Build a tuning from a base tuning, a per-string shape offset and
/// a uniform transpose, adding octaves until no string tone is
/// negative, optionally mirrored for a left-handed layout.
pub fn offset_strings(vec1: &Vec<usize>, vec2: &Vec<i32>, more: i32, is_left: bool) -> (r: Vec<
    usize,
>)
    requires
        vec1@.len() == vec2@.len(),
        forall|i: int| 0 <= i < vec1@.len() ==> #[trigger] vec1@[i] <= 1_000_000,
        forall|i: int| 0 <= i < vec2@.len() ==> -1_000_000 <= #[trigger] vec2@[i] <= 1_000_000,
        -1_000_000 <= more <= 1_000_000,
    ensures
        r@.len() == vec1@.len(),
        r@.map_values(|x: usize| x as int) == derived_strings_spec(
            vec1@.map_values(|x: usize| x as int),
            vec2@.map_values(|x: i32| x as int),
            more as int,
            is_left,
        ),
{
    let ghost base = vec1@.map_values(|x: usize| x as int);
    let ghost shape = vec2@.map_values(|x: i32| x as int);
    let ghost sh = shifted_spec(base, shape, more as int);
    let len = vec1.len();
    if len == 0 {
        let r: Vec<usize> = Vec::new();
        proof {
            assert(r@.map_values(|x: usize| x as int) =~= derived_strings_spec(
                base,
                shape,
                more as int,
                is_left,
            ));
        }
        return r;
    }
    // scan for the smallest shifted tone
    let mut mn: i64 = vec1[0] as i64 + vec2[0] as i64 + more as i64;
    let mut i: usize = 1;
    proof {
        assert(sh.take(1) =~= seq![sh[0]]);
    }
    while i < len
        invariant
            1 <= i <= len,
            len == vec1@.len() == vec2@.len(),
            forall|k: int| 0 <= k < vec1@.len() ==> #[trigger] vec1@[k] <= 1_000_000,
            forall|k: int| 0 <= k < vec2@.len() ==> -1_000_000 <= #[trigger] vec2@[k] <= 1_000_000,
            -1_000_000 <= more <= 1_000_000,
            base == vec1@.map_values(|x: usize| x as int),
            shape == vec2@.map_values(|x: i32| x as int),
            sh == shifted_spec(base, shape, more as int),
            mn as int == seq_min(sh.take(i as int)),
            -2_000_000 <= mn <= 3_000_000,
        decreases len - i,
    {
        let cur: i64 = vec1[i] as i64 + vec2[i] as i64 + more as i64;
        proof {
            assert(sh.take(i + 1).drop_last() =~= sh.take(i as int));
            assert(sh.take(i + 1).last() == cur as int);
        }
        if cur < mn {
            mn = cur;
        }
        i += 1;
    }
    proof {
        assert(sh.take(len as int) =~= sh);
    }
    // lift by whole octaves until nothing is below zero
    let lift: i64 = if mn >= 0 {
        0
    } else {
        proof {
            lemma_wrap_lift(mn as int);
        }
        12 * ((11 - mn) / 12)
    };
    proof {
        lemma_wrap_lift(mn as int);
    }
    let mut out: Vec<usize> = Vec::new();
    let mut i: usize = 0;
    while i < len
        invariant
            i <= len,
            len == vec1@.len() == vec2@.len(),
            forall|k: int| 0 <= k < vec1@.len() ==> #[trigger] vec1@[k] <= 1_000_000,
            forall|k: int| 0 <= k < vec2@.len() ==> -1_000_000 <= #[trigger] vec2@[k] <= 1_000_000,
            -1_000_000 <= more <= 1_000_000,
            base == vec1@.map_values(|x: usize| x as int),
            shape == vec2@.map_values(|x: i32| x as int),
            sh == shifted_spec(base, shape, more as int),
            mn as int == seq_min(sh),
            lift as int == wrap_lift_spec(mn as int),
            0 <= lift <= 3_000_023,
            mn + lift >= 0,
            out@.len() == i,
            forall|j: int| 0 <= j < i ==> #[trigger] (out@[j] as int) == sh[j] + lift as int,
        decreases len - i,
    {
        let val: i64 = vec1[i] as i64 + vec2[i] as i64 + more as i64 + lift;
        proof {
            lemma_seq_min_le(sh, i as int);
        }
        out.push(val as usize);
        i += 1;
    }
    let ghost lifted = Seq::new(sh.len(), |j: int| sh[j] + lift as int);
    if is_left {
        let mut rev: Vec<usize> = Vec::new();
        let mut j: usize = 0;
        while j < len
            invariant
                j <= len,
                len == out@.len(),
                forall|k: int| 0 <= k < out@.len() ==> #[trigger] (out@[k] as int) == lifted[k],
                lifted.len() == len,
                rev@.len() == j,
                forall|k: int| 0 <= k < j ==> #[trigger] (rev@[k] as int) == lifted[len - 1 - k],
            decreases len - j,
        {
            rev.push(out[len - 1 - j]);
            j += 1;
        }
        proof {
            assert(rev@.map_values(|x: usize| x as int) =~= derived_strings_spec(
                base,
                shape,
                more as int,
                is_left,
            ));
        }
        rev
    } else {
        proof {
            assert(out@.map_values(|x: usize| x as int) =~= derived_strings_spec(
                base,
                shape,
                more as int,
                is_left,
            ));
        }
        out
    }
}

/// When no shifted tone is negative, no octave lift is applied and
/// the derived tuning is exactly the shifted one.
pub proof fn lemma_no_lift(base: Seq<int>, shape: Seq<int>, more: int)
    requires
        base.len() > 0,
        forall|i: int| 0 <= i < base.len() ==> #[trigger] (base[i] + shape[i]) + more >= 0,
    ensures
        derived_strings_spec(base, shape, more, false) == shifted_spec(base, shape, more),
{
    let sh = shifted_spec(base, shape, more);
    lemma_seq_min_ge(sh, 0);
    assert(derived_strings_spec(base, shape, more, false) =~= sh);
}

impl Tuning {
    /// Make a named tuning from its open-string tones.
    pub fn from(name: &str, strings: Vec<usize>) -> (r: Tuning)
        ensures
            r.name@ == name@,
            r.strings@ == strings@,
    {
        Tuning { name: name.to_string(), strings }
    }

    /// The tuning's display name.
    pub fn name(&self) -> (r: &String)
        ensures
            r@ == self.name@,
    {
        &self.name
    }

    /// Append one string a perfect fourth (5 semitones) above the
    /// current highest string; an empty tuning is left unchanged,
    /// since its first string must be added explicitly.
    pub fn add_string(&mut self)
        requires
            old(self).strings@.len() > 0 ==> old(self).strings@.last() + 5 <= usize::MAX,
        ensures
            final(self).name@ == old(self).name@,
            old(self).strings@.len() == 0 ==> final(self).strings@ == old(self).strings@,
            old(self).strings@.len() > 0 ==> final(self).strings@ == old(self).strings@.push(
                (old(self).strings@.last() + 5) as usize,
            ),
    {
        let n = self.strings.len();
        if n > 0 {
            let top = self.strings[n - 1];
            self.strings.push(top + 5);
        }
    }

    /// Remove the string at `index`; out-of-range indexes leave the
    /// tuning unchanged.  A tuning may become empty: it then renders
    /// as zero strings, which is not an error.
    pub fn remove_string(&mut self, index: usize) -> (removed: bool)
        ensures
            final(self).name@ == old(self).name@,
            removed == (index < old(self).strings@.len()),
            removed ==> final(self).strings@ == old(self).strings@.remove(index as int),
            !removed ==> final(self).strings@ == old(self).strings@,
    {
        if index < self.strings.len() {
            self.strings.remove(index);
            true
        } else {
            false
        }
    }
}

impl Default for Instrument {
    /// The placeholder instrument: no tunings, so it renders as zero
    /// strings.
    fn default() -> (r: Self)
        ensures
            r.name@ == "None"@,
            r.tune_index == 0,
            r.tunings@.len() == 0,
    {
        Instrument { name: "None".to_string(), tune_index: 0, tunings: Vec::new() }
    }
}

impl Instrument {
    /// An instrument is well formed when its active tuning index is
    /// in bounds (an instrument without tunings keeps index 0).
    pub open spec fn wf(self) -> bool {
        if self.tunings@.len() == 0 {
            self.tune_index == 0
        } else {
            self.tune_index < self.tunings@.len()
        }
    }

    /// Make a named instrument from its tunings; the first tuning is
    /// active.
    pub fn from(name: &str, tunings: Vec<Tuning>) -> (r: Instrument)
        ensures
            r.name@ == name@,
            r.tune_index == 0,
            r.tunings@ == tunings@,
            r.wf(),
    {
        Instrument { name: name.to_string(), tune_index: 0, tunings }
    }

    /// The active tuning.
    pub fn tuning(&self) -> (r: &Tuning)
        requires
            self.tune_index < self.tunings@.len(),
        ensures
            *r == self.tunings@[self.tune_index as int],
    {
        &self.tunings[self.tune_index]
    }

    /// The open-string tones of the active tuning.
    pub fn strings(&self) -> (r: &Vec<usize>)
        requires
            self.tune_index < self.tunings@.len(),
        ensures
            r@ == self.tunings@[self.tune_index as int].strings@,
    {
        &self.tuning().strings
    }

    /// The empty placeholder instrument.
    pub fn none() -> (r: Instrument)
        ensures
            r.name@ == "none"@,
            r.tune_index == 0,
            r.tunings@.len() == 0,
            r.wf(),
    {
        Instrument::from("none", Vec::new())
    }

    /// A six-string guitar with the standard tuning and the common
    /// alternate tunings derived from it by shape offsets.
    pub fn guitar() -> (r: Instrument)
        ensures
            r.wf(),
            is_guitar_preset(r),
    {
        let standard: Vec<usize> = vec![4, 9, 14, 19, 23, 28];
        let shape_none: Vec<i32> = vec![0, 0, 0, 0, 0, 0];
        let shape_e: Vec<i32> = vec![0, 2, 2, 1, 0, 0];
        let shape_a: Vec<i32> = vec![0, 0, 2, 2, 2, 0];
        let shape_drop_d: Vec<i32> = vec![-2, 0, 0, 0, 0, 0];
        let shape_d: Vec<i32> = vec![-1, 0, 0, 2, 3, 2];
        let ghost base = standard@.map_values(|x: usize| x as int);
        let t_standard = Tuning::from("Standard", offset_strings(&standard, &shape_none, 0, false));
        let t_lefty = Tuning::from(
            "Standard (lefty)",
            offset_strings(&standard, &shape_none, 0, true),
        );
        let t_eb = Tuning::from("Standard Eb", offset_strings(&standard, &shape_none, -1, false));
        let t_d = Tuning::from("Standard D", offset_strings(&standard, &shape_none, -2, false));
        let t_drop_d = Tuning::from("DROP D", offset_strings(&standard, &shape_drop_d, 0, false));
        proof {
            lemma_no_lift(base, shape_none@.map_values(|x: i32| x as int), 0);
            assert(t_standard.strings@.map_values(|x: usize| x as int) =~= seq![
                4int,
                9,
                14,
                19,
                23,
                28,
            ]);
            assert(t_lefty.strings@.map_values(|x: usize| x as int) =~= seq![
                28int,
                23,
                19,
                14,
                9,
                4,
            ]);
            lemma_no_lift(base, shape_drop_d@.map_values(|x: i32| x as int), 0);
            assert(t_drop_d.strings@.map_values(|x: usize| x as int) =~= seq![
                2int,
                9,
                14,
                19,
                23,
                28,
            ]);
        }
        proof {
            lemma_no_lift(base, shape_none@.map_values(|x: i32| x as int), -1);
            assert(t_eb.strings@.map_values(|x: usize| x as int) =~= seq![
                3int,
                8,
                13,
                18,
                22,
                27,
            ]);
            lemma_no_lift(base, shape_none@.map_values(|x: i32| x as int), -2);
            assert(t_d.strings@.map_values(|x: usize| x as int) =~= seq![
                2int,
                7,
                12,
                17,
                21,
                26,
            ]);
        }
        let t_open_d = Tuning::from("OPEN D", offset_strings(&standard, &shape_e, -2, false));
        let t_open_e = Tuning::from("OPEN E", offset_strings(&standard, &shape_e, 0, false));
        let t_open_f = Tuning::from("OPEN F", offset_strings(&standard, &shape_a, -4, false));
        let t_open_g = Tuning::from("OPEN G", offset_strings(&standard, &shape_a, -2, false));
        let t_open_a = Tuning::from("OPEN A", offset_strings(&standard, &shape_a, 0, false));
        let t_open_c = Tuning::from("OPEN C", offset_strings(&standard, &shape_d, -3, false));
        proof {
            lemma_no_lift(base, shape_e@.map_values(|x: i32| x as int), -2);
            assert(t_open_d.strings@.map_values(|x: usize| x as int) =~= seq![
                2int,
                9,
                14,
                18,
                21,
                26,
            ]);
            lemma_no_lift(base, shape_e@.map_values(|x: i32| x as int), 0);
            assert(t_open_e.strings@.map_values(|x: usize| x as int) =~= seq![
                4int,
                11,
                16,
                20,
                23,
                28,
            ]);
            lemma_no_lift(base, shape_a@.map_values(|x: i32| x as int), -4);
            assert(t_open_f.strings@.map_values(|x: usize| x as int) =~= seq![
                0int,
                5,
                12,
                17,
                21,
                24,
            ]);
            lemma_no_lift(base, shape_a@.map_values(|x: i32| x as int), -2);
            assert(t_open_g.strings@.map_values(|x: usize| x as int) =~= seq![
                2int,
                7,
                14,
                19,
                23,
                26,
            ]);
            lemma_no_lift(base, shape_a@.map_values(|x: i32| x as int), 0);
            assert(t_open_a.strings@.map_values(|x: usize| x as int) =~= seq![
                4int,
                9,
                16,
                21,
                25,
                28,
            ]);
            lemma_no_lift(base, shape_d@.map_values(|x: i32| x as int), -3);
            assert(t_open_c.strings@.map_values(|x: usize| x as int) =~= seq![
                0int,
                6,
                11,
                18,
                23,
                27,
            ]);
        }
        let tunings: Vec<Tuning> = vec![
            t_standard,
            t_lefty,
            t_eb,
            t_d,
            t_drop_d,
            t_open_d,
            t_open_e,
            t_open_f,
            t_open_g,
            t_open_a,
            t_open_c,
        ];
        Instrument::from("Guitar", tunings)
    }

    /// A violin in fifths.
    pub fn violin() -> (r: Instrument)
        ensures
            r.wf(),
            is_violin_preset(r),
    {
        let t = Tuning::from("Standard", vec![7, 14, 21, 28]);
        proof {
            assert(t.strings@.map_values(|x: usize| x as int) =~= seq![7int, 14, 21, 28]);
        }
        Instrument::from("Violin", vec![t])
    }

    /// A cello in fifths.
    pub fn cello() -> (r: Instrument)
        ensures
            r.wf(),
            is_cello_preset(r),
    {
        let t = Tuning::from("Standard", vec![0, 7, 14, 21]);
        proof {
            assert(t.strings@.map_values(|x: usize| x as int) =~= seq![0int, 7, 14, 21]);
        }
        Instrument::from("Cello", vec![t])
    }

    /// A ukulele in its common reentrant tuning.
    pub fn ukulele() -> (r: Instrument)
        ensures
            r.wf(),
            is_ukulele_preset(r),
    {
        let t = Tuning::from("Standard", vec![7, 12, 16, 21]);
        proof {
            assert(t.strings@.map_values(|x: usize| x as int) =~= seq![7int, 12, 16, 21]);
        }
        Instrument::from("Ukulele", vec![t])
    }

    /// A five-string banjo.
    pub fn banjo() -> (r: Instrument)
        ensures
            r.wf(),
            is_banjo_preset(r),
    {
        let t = Tuning::from("Standard", vec![7, 14, 19, 23, 26]);
        proof {
            assert(t.strings@.map_values(|x: usize| x as int) =~= seq![7int, 14, 19, 23, 26]);
        }
        Instrument::from("Banjo", vec![t])
    }
}


/// The guitar preset: standard tuning and the ten alternate tunings
/// derived from it, first tuning active.
pub open spec fn is_guitar_preset(i: Instrument) -> bool {
    &&& i.name@ == "Guitar"@
    &&& i.tune_index == 0
    &&& i.tunings@.len() == 11
    &&& i.tunings@[0].name@ == "Standard"@
    &&& i.tunings@[0].strings@.map_values(|x: usize| x as int) == seq![4int, 9, 14, 19, 23, 28]
    &&& i.tunings@[1].name@ == "Standard (lefty)"@
    &&& i.tunings@[1].strings@.map_values(|x: usize| x as int) == seq![28int, 23, 19, 14, 9, 4]
    &&& i.tunings@[2].name@ == "Standard Eb"@
    &&& i.tunings@[2].strings@.map_values(|x: usize| x as int) == seq![3int, 8, 13, 18, 22, 27]
    &&& i.tunings@[3].name@ == "Standard D"@
    &&& i.tunings@[3].strings@.map_values(|x: usize| x as int) == seq![2int, 7, 12, 17, 21, 26]
    &&& i.tunings@[4].name@ == "DROP D"@
    &&& i.tunings@[4].strings@.map_values(|x: usize| x as int) == seq![2int, 9, 14, 19, 23, 28]
    &&& i.tunings@[5].name@ == "OPEN D"@
    &&& i.tunings@[5].strings@.map_values(|x: usize| x as int) == seq![2int, 9, 14, 18, 21, 26]
    &&& i.tunings@[6].name@ == "OPEN E"@
    &&& i.tunings@[6].strings@.map_values(|x: usize| x as int) == seq![4int, 11, 16, 20, 23, 28]
    &&& i.tunings@[7].name@ == "OPEN F"@
    &&& i.tunings@[7].strings@.map_values(|x: usize| x as int) == seq![0int, 5, 12, 17, 21, 24]
    &&& i.tunings@[8].name@ == "OPEN G"@
    &&& i.tunings@[8].strings@.map_values(|x: usize| x as int) == seq![2int, 7, 14, 19, 23, 26]
    &&& i.tunings@[9].name@ == "OPEN A"@
    &&& i.tunings@[9].strings@.map_values(|x: usize| x as int) == seq![4int, 9, 16, 21, 25, 28]
    &&& i.tunings@[10].name@ == "OPEN C"@
    &&& i.tunings@[10].strings@.map_values(|x: usize| x as int) == seq![0int, 6, 11, 18, 23, 27]
}

/// The violin preset: one standard tuning in fifths.
pub open spec fn is_violin_preset(i: Instrument) -> bool {
    &&& i.name@ == "Violin"@
    &&& i.tune_index == 0
    &&& i.tunings@.len() == 1
    &&& i.tunings@[0].name@ == "Standard"@
    &&& i.tunings@[0].strings@.map_values(|x: usize| x as int) == seq![7int, 14, 21, 28]
}

/// The cello preset: one standard tuning in fifths.
pub open spec fn is_cello_preset(i: Instrument) -> bool {
    &&& i.name@ == "Cello"@
    &&& i.tune_index == 0
    &&& i.tunings@.len() == 1
    &&& i.tunings@[0].name@ == "Standard"@
    &&& i.tunings@[0].strings@.map_values(|x: usize| x as int) == seq![0int, 7, 14, 21]
}

/// The ukulele preset: its common reentrant tuning.
pub open spec fn is_ukulele_preset(i: Instrument) -> bool {
    &&& i.name@ == "Ukulele"@
    &&& i.tune_index == 0
    &&& i.tunings@.len() == 1
    &&& i.tunings@[0].name@ == "Standard"@
    &&& i.tunings@[0].strings@.map_values(|x: usize| x as int) == seq![7int, 12, 16, 21]
}

/// The banjo preset: one standard five-string tuning.
pub open spec fn is_banjo_preset(i: Instrument) -> bool {
    &&& i.name@ == "Banjo"@
    &&& i.tune_index == 0
    &&& i.tunings@.len() == 1
    &&& i.tunings@[0].name@ == "Standard"@
    &&& i.tunings@[0].strings@.map_values(|x: usize| x as int) == seq![7int, 14, 19, 23, 26]
}

/// The catalog of instruments the presentation layer selects from;
/// mutable only through explicit add and remove operations.
pub struct Registry {
    pub instruments: Vec<Instrument>,
    pub current: usize,
}

impl Registry {
    /// A registry is well formed when it holds at least one
    /// instrument and its active index is in bounds.
    pub open spec fn wf(self) -> bool {
        self.instruments@.len() > 0 && self.current < self.instruments@.len()
    }

    /// A registry holding one instrument, which is active.
    pub fn new(first: Instrument) -> (r: Registry)
        ensures
            r.wf(),
            r.instruments@ =~= seq![first],
            r.current == 0,
    {
        Registry { instruments: vec![first], current: 0 }
    }

    /// The built-in catalog: guitar, violin, cello, ukulele and
    /// banjo, with the guitar active.
    pub fn with_presets() -> (r: Registry)
        ensures
            r.wf(),
            r.instruments@.len() == 5,
            r.current == 0,
            is_guitar_preset(r.instruments@[0]),
            is_violin_preset(r.instruments@[1]),
            is_cello_preset(r.instruments@[2]),
            is_ukulele_preset(r.instruments@[3]),
            is_banjo_preset(r.instruments@[4]),
    {
        Registry {
            instruments: vec![
                Instrument::guitar(),
                Instrument::violin(),
                Instrument::cello(),
                Instrument::ukulele(),
                Instrument::banjo(),
            ],
            current: 0,
        }
    }

    /// The active instrument.
    pub fn instrument(&self) -> (r: &Instrument)
        requires
            self.wf(),
        ensures
            *r == self.instruments@[self.current as int],
    {
        &self.instruments[self.current]
    }

    /// Append an instrument, which becomes the active one.
    pub fn add_instrument(&mut self, inst: Instrument)
        requires
            old(self).wf(),
        ensures
            final(self).wf(),
            final(self).instruments@ == old(self).instruments@.push(inst),
            final(self).current == old(self).instruments@.len(),
    {
        self.instruments.push(inst);
        self.current = self.instruments.len() - 1;
    }

    /// Remove the instrument at `index`.  Removing the last remaining
    /// instrument (or an out-of-range index) is refused: the registry
    /// is unchanged and `false` signals the non-fatal warning.  On
    /// success the active index stays if still in bounds, else it
    /// becomes the new last index.
    pub fn remove_instrument(&mut self, index: usize) -> (removed: bool)
        requires
            old(self).wf(),
        ensures
            final(self).wf(),
            removed == (old(self).instruments@.len() > 1 && index < old(
                self,
            ).instruments@.len()),
            !removed ==> *final(self) == *old(self),
            removed ==> final(self).instruments@ == old(self).instruments@.remove(index as int),
            removed ==> final(self).current == if old(self).current < old(
                self,
            ).instruments@.len() - 1 {
                old(self).current as int
            } else {
                old(self).instruments@.len() - 2
            },
    {
        if self.instruments.len() <= 1 || index >= self.instruments.len() {
            return false;
        }
        self.instruments.remove(index);
        if self.current >= self.instruments.len() {
            self.current = self.instruments.len() - 1;
        }
        true
    }
}

} // verus!
