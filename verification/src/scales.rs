//! The scale model: pitch classes, scale membership, note roles and
//! the label/color classification of every fretted position.
//!
//! A tone is a pitch class in `[0, 12)`, `0` standing for C.  All
//! arithmetic on tones is modulo 12 and is normalized into that range
//! before any table lookup, so arbitrarily large (or negative)
//! absolute positions are handled.

use vstd::prelude::*;

verus! {

use vstd::arithmetic::div_mod::lemma_div_is_strictly_smaller;
use vstd::arithmetic::div_mod::lemma_div_pos_is_pos;
use vstd::arithmetic::div_mod::lemma_fundamental_div_mod;
use vstd::arithmetic::div_mod::lemma_fundamental_div_mod_converse_mod;
use vstd::arithmetic::div_mod::lemma_mod_division_less_than_divisor;
use vstd::arithmetic::div_mod::lemma_mod_add_multiples_vanish;
use vstd::arithmetic::div_mod::lemma_small_mod;
use vstd::string::StringExecFns;
use crate::layout::NoteMarker;

/// Number of pitch classes in an octave.
pub const TOTAL_TONES: usize = 12;

/// Mode of a scale: minor or major.
#[derive(Debug, PartialEq, Eq, Structural, Clone, Copy)]
pub enum ScaleType {
    Minor,
    Major,
}

/// How many degrees the scale keeps, from the full diatonic set down
/// to the root alone.
#[derive(Debug, PartialEq, Eq, Structural, Clone, Copy)]
pub enum ScaleSize {
    Diatonic,
    Blues,
    Pentatonic,
    TriadsOnly,
    RootOnly,
}

/// Classification of a tone's relationship to the scale's root.
#[derive(Debug, PartialEq, Eq, Structural, Clone, Copy)]
pub enum NoteType {
    Root,
    Triad,
    Blue,
    InPentatonic,
    InDiatonic,
    NotInScale,
}

/// A scale: mode, size and key (the key is a tone in `[0, 12)`).
pub struct Scale {
    pub typ: ScaleType,
    pub siz: ScaleSize,
    pub key: usize,
}

/// The tone of `n` relative to `key`, always in `[0, 12)`.
pub open spec fn rel_tone(key: int, n: int) -> int {
    (n - key) % 12
}

/// The fixed semitone-offset table of each (mode, size) pair; the
/// root is always offset 0.
pub open spec fn degrees(typ: ScaleType, siz: ScaleSize) -> Seq<int> {
    match typ {
        ScaleType::Minor => match siz {
            ScaleSize::Diatonic => seq![0, 2, 3, 5, 7, 8, 10],
            ScaleSize::Blues => seq![0, 3, 5, 6, 7, 10],
            ScaleSize::Pentatonic => seq![0, 3, 5, 7, 10],
            ScaleSize::TriadsOnly => seq![0, 3, 7],
            ScaleSize::RootOnly => seq![0],
        },
        ScaleType::Major => match siz {
            ScaleSize::Diatonic => seq![0, 2, 4, 5, 7, 9, 11],
            ScaleSize::Blues => seq![0, 2, 3, 4, 7, 9],
            ScaleSize::Pentatonic => seq![0, 2, 4, 7, 9],
            ScaleSize::TriadsOnly => seq![0, 4, 7],
            ScaleSize::RootOnly => seq![0],
        },
    }
}

/// The role of a relative tone under a mode: fixed lookup table.
pub open spec fn note_type_spec(typ: ScaleType, t: int) -> NoteType {
    match typ {
        ScaleType::Minor => if t == 0 {
            NoteType::Root
        } else if t == 6 {
            NoteType::Blue
        } else if t == 3 || t == 7 {
            NoteType::Triad
        } else if t == 2 || t == 8 {
            NoteType::InDiatonic
        } else if t == 5 || t == 10 {
            NoteType::InPentatonic
        } else {
            NoteType::NotInScale
        },
        ScaleType::Major => if t == 0 {
            NoteType::Root
        } else if t == 3 {
            NoteType::Blue
        } else if t == 4 || t == 7 {
            NoteType::Triad
        } else if t == 2 || t == 9 {
            NoteType::InPentatonic
        } else if t == 5 || t == 11 {
            NoteType::InDiatonic
        } else {
            NoteType::NotInScale
        },
    }
}

/// Whether a relative tone is the blue note of the mode.
pub open spec fn blue_spec(typ: ScaleType, t: int) -> bool {
    match typ {
        ScaleType::Minor => t == 6,
        ScaleType::Major => t == 3,
    }
}

/// Which keys prefer flat spellings, per mode.
pub open spec fn flats_spec(typ: ScaleType, key: int) -> bool {
    match typ {
        ScaleType::Major => key == 0 || key == 1 || key == 3 || key == 5 || key == 8 || key == 10,
        ScaleType::Minor => key == 0 || key == 2 || key == 3 || key == 5 || key == 7 || key == 9
            || key == 10,
    }
}

/// The letter name of tone `i`, with a sharp or flat spelling; empty
/// outside `[0, 12)`.
pub open spec fn letter_spec(i: int, flats: bool) -> Seq<char> {
    if i == 0 {
        "C"@
    } else if i == 1 {
        if flats { "D♭"@ } else { "C♯"@ }
    } else if i == 2 {
        "D"@
    } else if i == 3 {
        if flats { "E♭"@ } else { "D♯"@ }
    } else if i == 4 {
        "E"@
    } else if i == 5 {
        "F"@
    } else if i == 6 {
        if flats { "G♭"@ } else { "F♯"@ }
    } else if i == 7 {
        "G"@
    } else if i == 8 {
        if flats { "A♭"@ } else { "G♯"@ }
    } else if i == 9 {
        "A"@
    } else if i == 10 {
        if flats { "B♭"@ } else { "A♯"@ }
    } else if i == 11 {
        "B"@
    } else {
        Seq::<char>::empty()
    }
}

/// The scale-degree numeral of a relative tone; empty outside
/// `[0, 12)`.
pub open spec fn number_spec(t: int) -> Seq<char> {
    if t == 0 {
        "R"@
    } else if t == 1 {
        "b2"@
    } else if t == 2 {
        "2"@
    } else if t == 3 {
        "b3"@
    } else if t == 4 {
        "3"@
    } else if t == 5 {
        "4"@
    } else if t == 6 {
        "b5"@
    } else if t == 7 {
        "5"@
    } else if t == 8 {
        "b6"@
    } else if t == 9 {
        "6"@
    } else if t == 10 {
        "b7"@
    } else if t == 11 {
        "7"@
    } else {
        Seq::<char>::empty()
    }
}

/// Shifting a tone by a whole octave and reducing modulo the key
/// gives the same relative tone, and the relative tone is always a
/// valid pitch class.
pub proof fn lemma_shift_mod(n: int, k: int)
    requires
        0 <= k < 12,
    ensures
        0 <= (n % 12 + 12 - k) % 12 < 12,
        (n % 12 + 12 - k) % 12 == (n - k) % 12,
{
    lemma_fundamental_div_mod(n, 12);
    lemma_mod_division_less_than_divisor(n, 12);
    let m = n % 12;
    let s = m + 12 - k;
    let q: int = if s >= 12 { 1 } else { 0 };
    let r = s - 12 * q;
    lemma_fundamental_div_mod_converse_mod(s, 12, q, r);
    lemma_fundamental_div_mod_converse_mod(n - k, 12, n / 12 - 1 + q, r);
}

/// The letter name of tone `i` under the chosen spelling; the empty
/// string when `i` is not a pitch class.
pub fn note_letter(i: usize, prefer_flats: bool) -> (r: String)
    ensures
        r@ == letter_spec(i as int, prefer_flats),
{
    if i >= TOTAL_TONES {
        return String::new();
    }
    if prefer_flats {
        match i {
            0 => "C".to_string(),
            1 => "D♭".to_string(),
            2 => "D".to_string(),
            3 => "E♭".to_string(),
            4 => "E".to_string(),
            5 => "F".to_string(),
            6 => "G♭".to_string(),
            7 => "G".to_string(),
            8 => "A♭".to_string(),
            9 => "A".to_string(),
            10 => "B♭".to_string(),
            _ => "B".to_string(),
        }
    } else {
        match i {
            0 => "C".to_string(),
            1 => "C♯".to_string(),
            2 => "D".to_string(),
            3 => "D♯".to_string(),
            4 => "E".to_string(),
            5 => "F".to_string(),
            6 => "F♯".to_string(),
            7 => "G".to_string(),
            8 => "G♯".to_string(),
            9 => "A".to_string(),
            10 => "A♯".to_string(),
            _ => "B".to_string(),
        }
    }
}

impl Scale {
    /// A scale is well formed when its key is a pitch class.
    pub open spec fn wf(self) -> bool {
        self.key < 12
    }

    /// The ordered semitone offsets (relative to the key) that are in
    /// the scale.
    pub fn notes(&self) -> (r: Vec<usize>)
        ensures
            r@.len() == degrees(self.typ, self.siz).len(),
            forall|i: int| 0 <= i < r@.len() ==> r@[i] as int == degrees(self.typ, self.siz)[i],
    {
        match self.typ {
            ScaleType::Minor => match self.siz {
                ScaleSize::Diatonic => vec![0, 2, 3, 5, 7, 8, 10],
                ScaleSize::Blues => vec![0, 3, 5, 6, 7, 10],
                ScaleSize::Pentatonic => vec![0, 3, 5, 7, 10],
                ScaleSize::TriadsOnly => vec![0, 3, 7],
                ScaleSize::RootOnly => vec![0],
            },
            ScaleType::Major => match self.siz {
                ScaleSize::Diatonic => vec![0, 2, 4, 5, 7, 9, 11],
                ScaleSize::Blues => vec![0, 2, 3, 4, 7, 9],
                ScaleSize::Pentatonic => vec![0, 2, 4, 7, 9],
                ScaleSize::TriadsOnly => vec![0, 4, 7],
                ScaleSize::RootOnly => vec![0],
            },
        }
    }

    /// Wrap an absolute position into the tone relative to the key.
    pub fn normalize(&self, note_as_int: usize) -> (r: usize)
        requires
            self.wf(),
        ensures
            r < 12,
            r as int == rel_tone(self.key as int, note_as_int as int),
    {
        proof {
            lemma_shift_mod(note_as_int as int, self.key as int);
        }
        (note_as_int % 12 + 12 - self.key) % 12
    }

    /// Whether a relative tone is one of the scale's degrees.
    pub fn contains_rel(&self, t: usize) -> (r: bool)
        ensures
            r == degrees(self.typ, self.siz).contains(t as int),
    {
        let notes = self.notes();
        let ghost degs = degrees(self.typ, self.siz);
        let mut j: usize = 0;
        while j < notes.len()
            invariant
                j <= notes.len(),
                degs == degrees(self.typ, self.siz),
                notes@.len() == degs.len(),
                forall|i: int| 0 <= i < notes@.len() ==> notes@[i] as int == degs[i],
                forall|i: int| 0 <= i < j ==> degs[i] != t as int,
            decreases notes.len() - j,
        {
            if notes[j] == t {
                assert(degs.contains(t as int)) by {
                    assert(degs[j as int] == t as int);
                }
                return true;
            }
            j += 1;
        }
        assert(forall|i: int| 0 <= i < degs.len() ==> degs[i] != t as int);
        false
    }

    /// Whether an absolute position (possibly negative) sounds a tone
    /// of the scale.
    pub fn is_note_in_scale(&self, n: i16) -> (r: bool)
        requires
            self.wf(),
        ensures
            r == degrees(self.typ, self.siz).contains(rel_tone(self.key as int, n as int)),
    {
        let mut m: i32 = n as i32;
        while m < 0
            invariant
                (n as int - m as int) % 12 == 0,
                m >= i16::MIN as int,
            decreases (if m < 0 { 12 - m as int } else { 0int }),
        {
            proof {
                vstd::arithmetic::div_mod::lemma_mod_sub_multiples_vanish(n as int - m as int, 12);
            }
            m = m + 12;
        }
        proof {
            lemma_fundamental_div_mod(n as int - m as int, 12);
            lemma_shift_mod(m as int, self.key as int);
            lemma_shift_mod(n as int, self.key as int);
            // m and n agree modulo 12, so they share a relative tone
            lemma_fundamental_div_mod(m as int, 12);
            lemma_mod_division_less_than_divisor(m as int, 12);
            lemma_fundamental_div_mod_converse_mod(
                n as int,
                12,
                (n as int - m as int) / 12 + m as int / 12,
                m as int % 12,
            );
        }
        let t = ((m % 12) as usize + 12 - self.key) % 12;
        self.contains_rel(t)
    }

    /// Which keys of this scale's mode prefer flat spellings.
    pub fn prefers_flats(&self) -> (r: bool)
        ensures
            r == flats_spec(self.typ, self.key as int),
    {
        match self.typ {
            ScaleType::Major => match self.key {
                0 | 1 | 3 | 5 | 8 | 10 => true,
                _ => false,
            },
            ScaleType::Minor => match self.key {
                0 | 2 | 3 | 5 | 7 | 9 | 10 => true,
                _ => false,
            },
        }
    }

    /// Whether a relative tone is the blue note of this scale's mode.
    pub fn is_blue_note(&self, note_0_to_11: usize) -> (r: bool)
        ensures
            r == blue_spec(self.typ, note_0_to_11 as int),
    {
        match self.typ {
            ScaleType::Minor => note_0_to_11 == 6,
            ScaleType::Major => note_0_to_11 == 3,
        }
    }

    /// The role of a relative tone under this scale's mode.
    pub fn get_note_type(&self, note_0_to_11: usize) -> (r: NoteType)
        ensures
            r == note_type_spec(self.typ, note_0_to_11 as int),
    {
        match self.typ {
            ScaleType::Minor => match note_0_to_11 {
                0 => NoteType::Root,
                6 => NoteType::Blue,
                3 | 7 => NoteType::Triad,
                2 | 8 => NoteType::InDiatonic,
                5 | 10 => NoteType::InPentatonic,
                _ => NoteType::NotInScale,
            },
            ScaleType::Major => match note_0_to_11 {
                0 => NoteType::Root,
                3 => NoteType::Blue,
                4 | 7 => NoteType::Triad,
                2 | 9 => NoteType::InPentatonic,
                5 | 11 => NoteType::InDiatonic,
                _ => NoteType::NotInScale,
            },
        }
    }

    /// The letter name of an absolute position, spelled flat when the
    /// key prefers flats or when the position sounds the blue note.
    pub fn get_note_letter(&self, n: usize) -> (r: String)
        requires
            self.wf(),
        ensures
            r@ == letter_full_spec(*self, n as int),
    {
        let rel = self.normalize(n);
        note_letter(n % TOTAL_TONES, self.prefers_flats() || self.is_blue_note(rel))
    }

    /// The scale-degree numeral of a position, after wrapping it to a
    /// pitch class.
    pub fn get_note_number(&self, n: usize) -> (r: String)
        ensures
            r@ == number_spec((n as int) % 12),
    {
        match n % TOTAL_TONES {
            0 => "R".to_string(),
            1 => "b2".to_string(),
            2 => "2".to_string(),
            3 => "b3".to_string(),
            4 => "3".to_string(),
            5 => "4".to_string(),
            6 => "b5".to_string(),
            7 => "5".to_string(),
            8 => "b6".to_string(),
            9 => "6".to_string(),
            10 => "b7".to_string(),
            _ => "7".to_string(),
        }
    }
}

/// The letter name an absolute position is displayed with: the
/// spelling is flat when the key prefers flats or when the position
/// sounds the blue note.
pub open spec fn letter_full_spec(s: Scale, n: int) -> Seq<char> {
    letter_spec(
        n % 12,
        flats_spec(s.typ, s.key as int) || blue_spec(s.typ, rel_tone(s.key as int, n)),
    )
}

/// The character of one decimal digit.
pub open spec fn digit_char(d: int) -> char {
    if d == 0 {
        '0'
    } else if d == 1 {
        '1'
    } else if d == 2 {
        '2'
    } else if d == 3 {
        '3'
    } else if d == 4 {
        '4'
    } else if d == 5 {
        '5'
    } else if d == 6 {
        '6'
    } else if d == 7 {
        '7'
    } else if d == 8 {
        '8'
    } else {
        '9'
    }
}

/// The decimal numeral of a non-negative integer, most significant
/// digit first.
pub open spec fn dec_seq(n: int) -> Seq<char>
    decreases n,
    when n >= 0
    via dec_seq_decreases
{
    if n < 10 {
        seq![digit_char(n)]
    } else {
        dec_seq(n / 10) + seq![digit_char(n % 10)]
    }
}

#[via_fn]
proof fn dec_seq_decreases(n: int) {
    if n >= 10 {
        lemma_div_is_strictly_smaller(n, 10);
        lemma_div_pos_is_pos(n, 10);
    }
}

/// The one-character string of a decimal digit.
fn digit_str(d: usize) -> (r: &'static str)
    requires
        d < 10,
    ensures
        r@ == seq![digit_char(d as int)],
{
    proof {
        reveal_strlit("0");
        reveal_strlit("1");
        reveal_strlit("2");
        reveal_strlit("3");
        reveal_strlit("4");
        reveal_strlit("5");
        reveal_strlit("6");
        reveal_strlit("7");
        reveal_strlit("8");
        reveal_strlit("9");
    }
    let r = match d {
        0 => "0",
        1 => "1",
        2 => "2",
        3 => "3",
        4 => "4",
        5 => "5",
        6 => "6",
        7 => "7",
        8 => "8",
        _ => "9",
    };
    proof {
        assert(r@ =~= seq![digit_char(d as int)]);
    }
    r
}

/// Format an integer as its decimal numeral.
pub fn to_decimal(n: usize) -> (r: String)
    ensures
        r@ == dec_seq(n as int),
    decreases n,
{
    let d = n % 10;
    if n < 10 {
        proof {
            lemma_small_mod(n as nat, 10);
        }
        digit_str(d).to_string()
    } else {
        proof {
            lemma_div_is_strictly_smaller(n as int, 10);
            lemma_div_pos_is_pos(n as int, 10);
        }
        let mut s = to_decimal(n / 10);
        s.append(digit_str(d));
        s
    }
}

/// The palette of the note bubbles.  The exact on-screen values are a
/// presentation concern; the core contract is that distinct roles map
/// to distinguishable pairs.
#[derive(Debug, PartialEq, Eq, Structural, Clone, Copy)]
pub enum DisplayColor {
    Transparent,
    Black,
    White,
    Blue,
    Gold,
    Khaki,
    Red,
    DarkGray,
    LightGray,
}

/// One cell's draw instruction: fill color, label text, text color.
pub struct Bubble {
    pub color: DisplayColor,
    pub text: String,
    pub text_color: DisplayColor,
}

/// The (fill, text) color pair of a role, per dark-mode variant.
pub open spec fn color_spec(dark_mode: bool, typ: NoteType) -> (DisplayColor, DisplayColor) {
    match typ {
        NoteType::Root => if dark_mode {
            (DisplayColor::White, DisplayColor::Black)
        } else {
            (DisplayColor::Black, DisplayColor::White)
        },
        NoteType::Blue => (DisplayColor::Blue, DisplayColor::White),
        NoteType::Triad => (DisplayColor::Gold, DisplayColor::Black),
        NoteType::InPentatonic => (DisplayColor::Khaki, DisplayColor::Black),
        NoteType::InDiatonic => (DisplayColor::Red, DisplayColor::White),
        NoteType::NotInScale => if dark_mode {
            (DisplayColor::DarkGray, DisplayColor::Black)
        } else {
            (DisplayColor::LightGray, DisplayColor::Black)
        },
    }
}

impl Bubble {
    /// An invisible cell: no fill and no text.
    pub fn blank() -> (r: Bubble)
        ensures
            r.color == DisplayColor::Transparent,
            r.text@ == Seq::<char>::empty(),
            r.text_color == DisplayColor::Black,
    {
        Bubble {
            color: DisplayColor::Transparent,
            text_color: DisplayColor::Black,
            text: String::new(),
        }
    }

    /// A visible cell with the given color pair and label.
    pub fn new(colors: (DisplayColor, DisplayColor), txt: String) -> (r: Bubble)
        ensures
            r.color == colors.0,
            r.text_color == colors.1,
            r.text@ == txt@,
    {
        Bubble {
            color: colors.0,
            text_color: colors.1,
            text: txt,
        }
    }
}

/// Whether an absolute position sounds a tone of the scale.
pub open spec fn in_scale_spec(s: Scale, n: int) -> bool {
    degrees(s.typ, s.siz).contains(rel_tone(s.key as int, n))
}

/// The role of an absolute position relative to the scale's key.
pub open spec fn role_spec(s: Scale, n: int) -> NoteType {
    note_type_spec(s.typ, rel_tone(s.key as int, n))
}

/// Whether a position gets a visible bubble under a label style:
/// out-of-scale positions show only as chromatic letters or as debug
/// indices.
pub open spec fn visible_spec(s: Scale, n: int, marker: NoteMarker) -> bool {
    in_scale_spec(s, n) || marker == NoteMarker::AllNotes || marker == NoteMarker::Debug
}

/// The fill color of a position's bubble.
pub open spec fn bubble_fill_spec(s: Scale, dark: bool, n: int, marker: NoteMarker) -> DisplayColor {
    if visible_spec(s, n, marker) {
        color_spec(dark, role_spec(s, n)).0
    } else {
        DisplayColor::Transparent
    }
}

/// The text color of a position's bubble.
pub open spec fn bubble_text_color_spec(
    s: Scale,
    dark: bool,
    n: int,
    marker: NoteMarker,
) -> DisplayColor {
    if visible_spec(s, n, marker) {
        color_spec(dark, role_spec(s, n)).1
    } else {
        DisplayColor::Black
    }
}

/// The label of a position's bubble: a letter name, a degree
/// numeral, the absolute index, or nothing.
pub open spec fn bubble_text_spec(s: Scale, n: int, marker: NoteMarker) -> Seq<char> {
    if !visible_spec(s, n, marker) {
        Seq::<char>::empty()
    } else {
        match marker {
            NoteMarker::AllNotes => letter_full_spec(s, n),
            NoteMarker::Letters => letter_full_spec(s, n),
            NoteMarker::Numbers => number_spec(rel_tone(s.key as int, n)),
            NoteMarker::Debug => dec_seq(n),
        }
    }
}

/// The tone chosen to exemplify a role in the legend, per mode.
pub open spec fn rep_tone_spec(typ: ScaleType, note: NoteType) -> int {
    match typ {
        ScaleType::Minor => match note {
            NoteType::Root => 0,
            NoteType::Triad => 3,
            NoteType::InPentatonic => 5,
            NoteType::Blue => 6,
            NoteType::InDiatonic => 8,
            NoteType::NotInScale => 12,
        },
        ScaleType::Major => match note {
            NoteType::Root => 0,
            NoteType::Triad => 4,
            NoteType::InPentatonic => 2,
            NoteType::Blue => 3,
            NoteType::InDiatonic => 5,
            NoteType::NotInScale => 0,
        },
    }
}

/// The absolute pitch class shown for a role in the legend.
pub open spec fn legend_tone_spec(s: Scale, note: NoteType) -> int {
    (rep_tone_spec(s.typ, note) + s.key as int) % 12
}

/// The label of a legend row's example bubble.
pub open spec fn legend_text_spec(s: Scale, note: NoteType, marker: NoteMarker) -> Seq<char> {
    match marker {
        NoteMarker::AllNotes => letter_full_spec(s, legend_tone_spec(s, note)),
        NoteMarker::Letters => letter_full_spec(s, legend_tone_spec(s, note)),
        NoteMarker::Numbers => number_spec(legend_tone_spec(s, note)),
        NoteMarker::Debug => dec_seq(rep_tone_spec(s.typ, note)),
    }
}

impl Scale {
    /// The single entry point the rendering layer calls per cell:
    /// whether and how the position at absolute pitch `note_as_int`
    /// is drawn.
    pub fn get_bubble(&self, dark_mode: bool, note_as_int: usize, note_marker: NoteMarker) -> (r:
        Bubble)
        requires
            self.wf(),
        ensures
            r.color == bubble_fill_spec(*self, dark_mode, note_as_int as int, note_marker),
            r.text@ == bubble_text_spec(*self, note_as_int as int, note_marker),
            r.text_color == bubble_text_color_spec(*self, dark_mode, note_as_int as int,
                note_marker),
    {
        let note_0_to_11 = self.normalize(note_as_int);
        let is_note_in_scale = self.contains_rel(note_0_to_11);
        let typ = self.get_note_type(note_0_to_11);
        let colors = Scale::color_lookup(dark_mode, typ);
        proof {
            lemma_small_mod(note_0_to_11 as nat, 12);
        }
        if !is_note_in_scale {
            match note_marker {
                NoteMarker::AllNotes => Bubble::new(colors, self.get_note_letter(note_as_int)),
                NoteMarker::Debug => Bubble::new(colors, to_decimal(note_as_int)),
                _ => Bubble::blank(),
            }
        } else {
            match note_marker {
                NoteMarker::AllNotes => Bubble::new(colors, self.get_note_letter(note_as_int)),
                NoteMarker::Letters => Bubble::new(colors, self.get_note_letter(note_as_int)),
                NoteMarker::Numbers => Bubble::new(colors, self.get_note_number(note_0_to_11)),
                NoteMarker::Debug => Bubble::new(colors, to_decimal(note_as_int)),
            }
        }
    }

    /// The example bubble of a legend row: the given role, colored as
    /// on the fretboard and labeled with its example tone.
    pub fn get_bubble_from(&self, dark_mode: bool, note: NoteType, marker: NoteMarker) -> (r:
        Bubble)
        requires
            self.wf(),
        ensures
            r.color == color_spec(dark_mode, note).0,
            r.text_color == color_spec(dark_mode, note).1,
            r.text@ == legend_text_spec(*self, note, marker),
    {
        let note_0_to_11: usize = match self.typ {
            ScaleType::Minor => match note {
                NoteType::Root => 0,
                NoteType::Triad => 3,
                NoteType::InPentatonic => 5,
                NoteType::Blue => 6,
                NoteType::InDiatonic => 8,
                _ => 12,
            },
            ScaleType::Major => match note {
                NoteType::Root => 0,
                NoteType::Triad => 4,
                NoteType::InPentatonic => 2,
                NoteType::Blue => 3,
                NoteType::InDiatonic => 5,
                _ => 0,
            },
        };
        let n = (note_0_to_11 + self.key) % TOTAL_TONES;
        let colors = Scale::color_lookup(dark_mode, note);
        Bubble::new(
            colors,
            match marker {
                NoteMarker::AllNotes => self.get_note_letter(n),
                NoteMarker::Letters => self.get_note_letter(n),
                NoteMarker::Numbers => self.get_note_number(n),
                NoteMarker::Debug => to_decimal(note_0_to_11),
            },
        )
    }

    /// The color pair a role is drawn with.
    pub fn color_lookup(dark_mode: bool, typ: NoteType) -> (r: (DisplayColor, DisplayColor))
        ensures
            r == color_spec(dark_mode, typ),
    {
        if dark_mode {
            match typ {
                NoteType::Root => (DisplayColor::White, DisplayColor::Black),
                NoteType::Blue => (DisplayColor::Blue, DisplayColor::White),
                NoteType::Triad => (DisplayColor::Gold, DisplayColor::Black),
                NoteType::InPentatonic => (DisplayColor::Khaki, DisplayColor::Black),
                NoteType::InDiatonic => (DisplayColor::Red, DisplayColor::White),
                _ => (DisplayColor::DarkGray, DisplayColor::Black),
            }
        } else {
            match typ {
                NoteType::Root => (DisplayColor::Black, DisplayColor::White),
                NoteType::Blue => (DisplayColor::Blue, DisplayColor::White),
                NoteType::Triad => (DisplayColor::Gold, DisplayColor::Black),
                NoteType::InPentatonic => (DisplayColor::Khaki, DisplayColor::Black),
                NoteType::InDiatonic => (DisplayColor::Red, DisplayColor::White),
                _ => (DisplayColor::LightGray, DisplayColor::Black),
            }
        }
    }
}

/// Distinct roles are always distinguishable: no two roles share a
/// (fill, text) color pair, in either dark-mode variant.
pub proof fn lemma_role_colors_distinct(dark: bool, t1: NoteType, t2: NoteType)
    requires
        t1 != t2,
    ensures
        color_spec(dark, t1) != color_spec(dark, t2),
{
}

/// How many degrees a scale of each size has.
pub open spec fn scale_size_count(siz: ScaleSize) -> nat {
    match siz {
        ScaleSize::Diatonic => 7,
        ScaleSize::Blues => 6,
        ScaleSize::Pentatonic => 5,
        ScaleSize::TriadsOnly => 3,
        ScaleSize::RootOnly => 1,
    }
}

/// A relative tone is always a pitch class in `[0, 12)`, and shifting
/// a position by a whole octave leaves its relative tone unchanged.
pub proof fn lemma_rel_tone_periodic(key: int, n: int)
    requires
        0 <= key < 12,
    ensures
        0 <= rel_tone(key, n) < 12,
        rel_tone(key, n + 12) == rel_tone(key, n),
{
    lemma_mod_division_less_than_divisor(n - key, 12);
    lemma_mod_add_multiples_vanish(n - key, 12);
}

/// Shifting a position by a whole octave changes neither its role,
/// nor its visibility, nor its bubble, under every label style but
/// the debug one (whose text is the absolute index itself).
pub proof fn lemma_bubble_periodic(s: Scale, dark: bool, n: int, marker: NoteMarker)
    requires
        s.wf(),
        marker != NoteMarker::Debug,
    ensures
        role_spec(s, n + 12) == role_spec(s, n),
        in_scale_spec(s, n + 12) == in_scale_spec(s, n),
        bubble_fill_spec(s, dark, n + 12, marker) == bubble_fill_spec(s, dark, n, marker),
        bubble_text_spec(s, n + 12, marker) == bubble_text_spec(s, n, marker),
        bubble_text_color_spec(s, dark, n + 12, marker) == bubble_text_color_spec(
            s,
            dark,
            n,
            marker,
        ),
{
    lemma_rel_tone_periodic(s.key as int, n);
    lemma_mod_add_multiples_vanish(n, 12);
}

/// The root-note invariant: relative tone 0 is always the root, and
/// the key itself is in every scale.
pub proof fn lemma_root_invariant(s: Scale)
    requires
        s.wf(),
    ensures
        note_type_spec(s.typ, 0) == NoteType::Root,
        rel_tone(s.key as int, s.key as int) == 0,
        in_scale_spec(s, s.key as int),
{
    lemma_small_mod(0, 12);
    assert(degrees(s.typ, s.siz).contains(0)) by {
        assert(degrees(s.typ, s.siz)[0] == 0);
    }
}

/// The degree tables are strictly increasing sequences of pitch
/// classes of the documented sizes: 7 diatonic tones, 6 blues, 5
/// pentatonic, 3 triad, 1 root, in both modes, with no duplicates.
pub proof fn lemma_degree_set_sizes(typ: ScaleType, siz: ScaleSize)
    ensures
        degrees(typ, siz).len() == scale_size_count(siz),
        forall|i: int, j: int|
            0 <= i < j < degrees(typ, siz).len() ==> #[trigger] degrees(typ, siz)[i]
                < #[trigger] degrees(typ, siz)[j],
        degrees(typ, siz).no_duplicates(),
        forall|i: int| 0 <= i < degrees(typ, siz).len() ==> 0 <= #[trigger] degrees(typ, siz)[i]
            < 12,
{
    reveal(Seq::no_duplicates);
}

} // verus!
