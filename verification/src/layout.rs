//! The layout engine: 2D positions of fret wires, fret markers,
//! string lines and note bubbles on a logical fretboard grid.
//!
//! Every call is a pure function of the view settings, the string
//! count and the drawing rectangle.  Coordinates are integer drawing
//! units.  One orientation axis runs down the neck (fret direction),
//! the other across it (string direction): a vertical fretboard maps
//! the neck to the Y axis, a horizontal one to the X axis.

use vstd::prelude::*;

verus! {

use vstd::arithmetic::div_mod::lemma_div_nonincreasing;
use vstd::arithmetic::div_mod::lemma_div_pos_is_pos;
use vstd::arithmetic::div_mod::lemma_fundamental_div_mod_converse_div;
use vstd::arithmetic::div_mod::lemma_fundamental_div_mod_converse_mod;
use vstd::arithmetic::mul::lemma_mul_nonnegative;
use vstd::arithmetic::mul::lemma_mul_upper_bound;

/// Style of the markers drawn at the conventional fret positions.
#[derive(Debug, PartialEq, Eq, Structural, Clone, Copy)]
pub enum FretMarker {
    Dots,
    Numbers,
    NoMarks,
}

/// Which label is drawn inside each note bubble.
#[derive(Debug, PartialEq, Eq, Structural, Clone, Copy)]
pub enum NoteMarker {
    AllNotes,
    Letters,
    Numbers,
    Debug,
}

/// Coloring policy for note bubbles.
#[derive(Debug, PartialEq, Eq, Structural, Clone, Copy)]
pub enum NoteColors {
    Monochrome,
    ByTone,
    ByOctave,
}

/// Whether each string is drawn as one centerline or as the two
/// boundary lines of its band.
#[derive(Debug, PartialEq, Eq, Structural, Clone, Copy)]
pub enum StringStyle {
    SingleLine,
    CellBounds,
}

/// Which screen axis runs down the neck.
#[derive(Debug, PartialEq, Eq, Structural, Clone, Copy)]
pub enum Orientation {
    Vertical,
    Horizontal,
}

/// A point in drawing units.
#[derive(Debug, PartialEq, Eq, Structural, Clone, Copy)]
pub struct Point {
    pub x: i64,
    pub y: i64,
}

/// The rectangle available for drawing, in drawing units.
#[derive(Debug, PartialEq, Eq, Structural, Clone, Copy)]
pub struct DrawRect {
    pub left: i64,
    pub top: i64,
    pub right: i64,
    pub bottom: i64,
}

/// The display settings a single render pass works from.
#[derive(Debug, PartialEq, Eq, Structural, Clone, Copy)]
pub struct ViewSettings {
    pub orientation: Orientation,
    pub frets: usize,
    pub space_string: i64,
    pub space_fret: i64,
    pub fret_marks: FretMarker,
    pub note_marks: NoteMarker,
    pub note_colors: NoteColors,
    pub string_style: StringStyle,
    pub dark_mode: bool,
    pub show_legend: bool,
}

/// One fret wire: a line across the neck.  Fret 0 is the nut, drawn
/// thicker and at the origin itself.
#[derive(Debug, PartialEq, Eq, Structural, Clone, Copy)]
pub struct FretLine {
    pub fret: usize,
    pub a: Point,
    pub b: Point,
    pub is_nut: bool,
}

/// The marker slots of one fret: a spot beyond each neck edge, shown
/// only at the conventional positions, doubled at octave multiples.
#[derive(Debug, PartialEq, Eq, Structural, Clone, Copy)]
pub struct FretMarkerSpot {
    pub fret: usize,
    pub shown: bool,
    pub octave: bool,
    pub pos_a: Point,
    pub pos_b: Point,
}

/// One drawn string line, spanning the drawing rectangle along the
/// neck, labeled with the string index whose band it belongs to.
#[derive(Debug, PartialEq, Eq, Structural, Clone, Copy)]
pub struct StringLine {
    pub string: usize,
    pub a: Point,
    pub b: Point,
}

/// Positions for every drawable element of the fretboard grid.
pub struct FretboardLayout {
    pub fret_wire_positions: Vec<FretLine>,
    pub fret_marker_positions: Vec<FretMarkerSpot>,
    pub string_line_positions: Vec<StringLine>,
    pub note_cell_positions: Vec<Point>,
    pub string_count: usize,
    pub fret_count: usize,
}

impl ViewSettings {
    /// Whether the neck runs down the screen.
    pub open spec fn vertical(self) -> bool {
        self.orientation == Orientation::Vertical
    }

    /// Sane bounds: at least one fret, and counts and spacings small
    /// enough that no coordinate overflows.
    pub open spec fn wf(self) -> bool {
        &&& 1 <= self.frets <= 10_000
        &&& 0 <= self.space_string <= 10_000
        &&& 0 <= self.space_fret <= 10_000
    }
}

impl DrawRect {
    /// A drawing rectangle in screen convention: non-negative,
    /// bounded coordinates, growing rightward and downward.
    pub open spec fn wf(self) -> bool {
        &&& 0 <= self.left <= self.right <= 100_000_000
        &&& 0 <= self.top <= self.bottom <= 100_000_000
    }
}

/// Start of the neck axis: a small inset past the rectangle's edge.
pub open spec fn origin_spec(s: ViewSettings, r: DrawRect) -> int {
    10 + if s.vertical() {
        r.top as int
    } else {
        r.left as int
    }
}

/// Midline of the across axis, around which the strings are centered.
pub open spec fn center_spec(s: ViewSettings, r: DrawRect) -> int {
    if s.vertical() {
        (r.left as int + r.right as int) / 2
    } else {
        (r.top as int + r.bottom as int) / 2
    }
}

/// Half the breadth of the fretboard across the neck.
pub open spec fn half_breadth_spec(s: ViewSettings, string_count: int) -> int {
    (string_count * s.space_string as int) / 2
}

/// The neck-axis position a note at fret `f` sits on.
pub open spec fn note_along_spec(s: ViewSettings, r: DrawRect, f: int) -> int {
    origin_spec(s, r) + f * s.space_fret as int
}

/// The neck-axis position of fret `f`'s wire: between fret `f` and
/// `f + 1`, except the nut, which sits at the origin.
pub open spec fn wire_along_spec(s: ViewSettings, r: DrawRect, f: int) -> int {
    if f == 0 {
        origin_spec(s, r)
    } else {
        note_along_spec(s, r, f) + s.space_fret as int / 2
    }
}

/// The across-axis position where display row `row`'s band starts.
pub open spec fn band_low_spec(s: ViewSettings, string_count: int, r: DrawRect, row: int) -> int {
    center_spec(s, r) - half_breadth_spec(s, string_count) + row * s.space_string as int
}

/// The across-axis centerline of display row `row`.
pub open spec fn band_mid_spec(s: ViewSettings, string_count: int, r: DrawRect, row: int) -> int {
    band_low_spec(s, string_count, r, row) + s.space_string as int / 2
}

/// The display row of string index `st`: the order reverses when the
/// orientation flips, so string 0 stays on the same visual side.
pub open spec fn row_of_string_spec(s: ViewSettings, string_count: int, st: int) -> int {
    if s.vertical() {
        st
    } else {
        string_count - 1 - st
    }
}

/// Whether fret `f` carries a marker: the conventional positions
/// 3, 5, 7 and 9 within each octave, and every octave fret itself.
pub open spec fn is_marked_fret(f: int) -> bool {
    f % 12 == 3 || f % 12 == 5 || f % 12 == 7 || f % 12 == 9 || (f % 12 == 0 && f > 0)
}

/// Whether fret `f` is an octave multiple (marked doubly).
pub open spec fn is_octave_fret(f: int) -> bool {
    f % 12 == 0 && f > 0
}

/// Across-axis position of the marker row before the first string.
pub open spec fn edge_near_spec(s: ViewSettings, string_count: int, r: DrawRect) -> int {
    center_spec(s, r) - half_breadth_spec(s, string_count) - 10
}

/// Across-axis position of the marker row past the last string.
pub open spec fn edge_far_spec(s: ViewSettings, string_count: int, r: DrawRect) -> int {
    center_spec(s, r) + half_breadth_spec(s, string_count) + 10
}

/// Where the string lines start along the neck: the rectangle edge.
pub open spec fn along_start_spec(s: ViewSettings, r: DrawRect) -> int {
    if s.vertical() {
        r.top as int
    } else {
        r.left as int
    }
}

/// Where the string lines end along the neck.
pub open spec fn along_end_spec(s: ViewSettings, r: DrawRect) -> int {
    if s.vertical() {
        r.bottom as int
    } else {
        r.right as int
    }
}

/// A point sits at neck coordinate `along` and cross coordinate
/// `across`, mapped to screen axes by the orientation.
pub open spec fn point_is(p: Point, vertical: bool, along: int, across: int) -> bool {
    if vertical {
        p.x as int == across && p.y as int == along
    } else {
        p.x as int == along && p.y as int == across
    }
}

/// The fret wire of fret `f`: a line across the neck at the wire
/// position, flagged as the nut when `f` is 0.
pub open spec fn fret_line_ok(
    s: ViewSettings,
    string_count: int,
    r: DrawRect,
    f: int,
    w: FretLine,
) -> bool {
    &&& w.fret as int == f
    &&& w.is_nut == (f == 0)
    &&& point_is(
        w.a,
        s.vertical(),
        wire_along_spec(s, r, f),
        center_spec(s, r) - half_breadth_spec(s, string_count),
    )
    &&& point_is(
        w.b,
        s.vertical(),
        wire_along_spec(s, r, f),
        center_spec(s, r) + half_breadth_spec(s, string_count),
    )
}

/// The marker slots of fret `f`: one spot beyond each neck edge at
/// the wire position, shown only at the conventional positions and
/// only when markers are on at all.
pub open spec fn marker_ok(
    s: ViewSettings,
    string_count: int,
    r: DrawRect,
    f: int,
    m: FretMarkerSpot,
) -> bool {
    &&& m.fret as int == f
    &&& m.shown == (s.fret_marks != FretMarker::NoMarks && is_marked_fret(f))
    &&& m.octave == is_octave_fret(f)
    &&& point_is(m.pos_a, s.vertical(), wire_along_spec(s, r, f), edge_near_spec(s, string_count, r))
    &&& point_is(m.pos_b, s.vertical(), wire_along_spec(s, r, f), edge_far_spec(s, string_count, r))
}

/// Entry `k` of the string-line list under the single-line style:
/// the centerline of display row `k`, spanning the rectangle.
pub open spec fn single_line_ok(
    s: ViewSettings,
    string_count: int,
    r: DrawRect,
    k: int,
    e: StringLine,
) -> bool {
    &&& e.string as int == row_of_string_spec(s, string_count, k)
    &&& point_is(e.a, s.vertical(), along_start_spec(s, r), band_mid_spec(s, string_count, r, k))
    &&& point_is(e.b, s.vertical(), along_end_spec(s, r), band_mid_spec(s, string_count, r, k))
}

/// Entry `k` of the string-line list under the cell-bounds style:
/// rows contribute their two band boundaries in order.
pub open spec fn bounds_line_ok(
    s: ViewSettings,
    string_count: int,
    r: DrawRect,
    k: int,
    e: StringLine,
) -> bool {
    let row = k / 2;
    let across = if k % 2 == 0 {
        band_low_spec(s, string_count, r, row)
    } else {
        band_low_spec(s, string_count, r, row) + s.space_string as int
    };
    &&& e.string as int == row_of_string_spec(s, string_count, row)
    &&& point_is(e.a, s.vertical(), along_start_spec(s, r), across)
    &&& point_is(e.b, s.vertical(), along_end_spec(s, r), across)
}

/// Entry `k` of the flattened note-cell list: string-major order,
/// `frets + 1` cells per string; the note sits on the fret-index
/// line of its string's centerline.
pub open spec fn note_cell_ok(
    s: ViewSettings,
    string_count: int,
    r: DrawRect,
    k: int,
    p: Point,
) -> bool {
    let per = s.frets as int + 1;
    let st = k / per;
    let f = k % per;
    point_is(
        p,
        s.vertical(),
        note_along_spec(s, r, f),
        band_mid_spec(s, string_count, r, row_of_string_spec(s, string_count, st)),
    )
}

/// The full characterization of a computed layout: every element of
/// every list is pinned to its geometric position.
pub open spec fn layout_matches(
    s: ViewSettings,
    string_count: int,
    r: DrawRect,
    l: FretboardLayout,
) -> bool {
    &&& l.string_count as int == string_count
    &&& l.fret_count == s.frets
    &&& l.fret_wire_positions@.len() == s.frets as int + 1
    &&& forall|f: int|
        0 <= f <= s.frets as int ==> fret_line_ok(
            s,
            string_count,
            r,
            f,
            #[trigger] l.fret_wire_positions@[f],
        )
    &&& l.fret_marker_positions@.len() == s.frets as int + 1
    &&& forall|f: int|
        0 <= f <= s.frets as int ==> marker_ok(
            s,
            string_count,
            r,
            f,
            #[trigger] l.fret_marker_positions@[f],
        )
    &&& (if s.string_style == StringStyle::SingleLine {
        &&& l.string_line_positions@.len() == string_count
        &&& forall|k: int|
            0 <= k < string_count ==> single_line_ok(
                s,
                string_count,
                r,
                k,
                #[trigger] l.string_line_positions@[k],
            )
    } else {
        &&& l.string_line_positions@.len() == 2 * string_count
        &&& forall|k: int|
            0 <= k < 2 * string_count ==> bounds_line_ok(
                s,
                string_count,
                r,
                k,
                #[trigger] l.string_line_positions@[k],
            )
    })
    &&& l.note_cell_positions@.len() == string_count * (s.frets as int + 1)
    &&& forall|k: int|
        0 <= k < string_count * (s.frets as int + 1) ==> note_cell_ok(
            s,
            string_count,
            r,
            k,
            #[trigger] l.note_cell_positions@[k],
        )
}

/// A product of two bounded non-negative factors is bounded.
proof fn lemma_prod_bound(x: int, xb: int, y: int, yb: int)
    requires
        0 <= x <= xb,
        0 <= y <= yb,
    ensures
        0 <= x * y <= xb * yb,
{
    lemma_mul_upper_bound(x, xb, y, yb);
    lemma_mul_nonnegative(x, y);
}

/// Map a (neck, cross) coordinate pair to screen axes.
fn place(vertical: bool, along: i64, across: i64) -> (p: Point)
    ensures
        point_is(p, vertical, along as int, across as int),
{
    if vertical {
        Point { x: across, y: along }
    } else {
        Point { x: along, y: across }
    }
}

/// The absolute sounded pitch of a fretted position: the string's
/// open tone plus the fret number.
pub fn sounded_note(strings: &Vec<usize>, string: usize, fret: usize) -> (r: usize)
    requires
        string < strings@.len(),
        strings@[string as int] + fret <= usize::MAX,
    ensures
        r == strings@[string as int] + fret,
{
    strings[string] + fret
}

/// Compute the positions of every drawable element of the fretboard
/// grid for one frame.
pub fn layout_positions(settings: &ViewSettings, string_count: usize, rect: &DrawRect) -> (l:
    FretboardLayout)
    requires
        settings.wf(),
        rect.wf(),
        string_count <= 1_000,
    ensures
        layout_matches(*settings, string_count as int, *rect, l),
{
    let vertical = settings.orientation == Orientation::Vertical;
    let origin: i64 = 10 + if vertical {
        rect.top
    } else {
        rect.left
    };
    let center: i64 = if vertical {
        (rect.left + rect.right) / 2
    } else {
        (rect.top + rect.bottom) / 2
    };
    proof {
        lemma_prod_bound(string_count as int, 1_000, settings.space_string as int, 10_000);
        lemma_div_pos_is_pos(string_count as int * settings.space_string as int, 2);
        lemma_div_nonincreasing(string_count as int * settings.space_string as int, 2);
    }
    let half: i64 = (string_count as i64) * settings.space_string / 2;
    let a_start: i64 = if vertical {
        rect.top
    } else {
        rect.left
    };
    let a_end: i64 = if vertical {
        rect.bottom
    } else {
        rect.right
    };
    let marks_on = !matches!(settings.fret_marks, FretMarker::NoMarks);
    let num_frets = settings.frets + 1;

    // fret wires and their marker slots
    let mut wires: Vec<FretLine> = Vec::new();
    let mut markers: Vec<FretMarkerSpot> = Vec::new();
    let mut f: usize = 0;
    while f < num_frets
        invariant
            f <= num_frets,
            num_frets == settings.frets + 1,
            settings.wf(),
            rect.wf(),
            string_count <= 1_000,
            vertical == settings.vertical(),
            origin as int == origin_spec(*settings, *rect),
            center as int == center_spec(*settings, *rect),
            half as int == half_breadth_spec(*settings, string_count as int),
            0 <= half <= 10_000_000,
            marks_on == (settings.fret_marks != FretMarker::NoMarks),
            wires@.len() == f,
            forall|k: int|
                0 <= k < f ==> fret_line_ok(
                    *settings,
                    string_count as int,
                    *rect,
                    k,
                    #[trigger] wires@[k],
                ),
            markers@.len() == f,
            forall|k: int|
                0 <= k < f ==> marker_ok(
                    *settings,
                    string_count as int,
                    *rect,
                    k,
                    #[trigger] markers@[k],
                ),
        decreases num_frets - f,
    {
        proof {
            lemma_prod_bound(f as int, 10_000, settings.space_fret as int, 10_000);
            lemma_div_pos_is_pos(settings.space_fret as int, 2);
            lemma_div_nonincreasing(settings.space_fret as int, 2);
        }
        let along: i64 = if f == 0 {
            origin
        } else {
            origin + (f as i64) * settings.space_fret + settings.space_fret / 2
        };
        let fm = f % 12;
        let marked = marks_on && (fm == 3 || fm == 5 || fm == 7 || fm == 9 || (fm == 0 && f > 0));
        let octave = fm == 0 && f > 0;
        wires.push(
            FretLine {
                fret: f,
                a: place(vertical, along, center - half),
                b: place(vertical, along, center + half),
                is_nut: f == 0,
            },
        );
        markers.push(
            FretMarkerSpot {
                fret: f,
                shown: marked,
                octave,
                pos_a: place(vertical, along, center - half - 10),
                pos_b: place(vertical, along, center + half + 10),
            },
        );
        f += 1;
    }

    // string lines
    let single = matches!(settings.string_style, StringStyle::SingleLine);
    let mut lines: Vec<StringLine> = Vec::new();
    let mut row: usize = 0;
    while row < string_count
        invariant
            row <= string_count,
            settings.wf(),
            rect.wf(),
            string_count <= 1_000,
            vertical == settings.vertical(),
            origin as int == origin_spec(*settings, *rect),
            center as int == center_spec(*settings, *rect),
            half as int == half_breadth_spec(*settings, string_count as int),
            0 <= half <= 10_000_000,
            a_start as int == along_start_spec(*settings, *rect),
            a_end as int == along_end_spec(*settings, *rect),
            single == (settings.string_style == StringStyle::SingleLine),
            single ==> lines@.len() == row,
            !single ==> lines@.len() == 2 * row,
            single ==> forall|k: int|
                0 <= k < row ==> single_line_ok(
                    *settings,
                    string_count as int,
                    *rect,
                    k,
                    #[trigger] lines@[k],
                ),
            !single ==> forall|k: int|
                0 <= k < 2 * row ==> bounds_line_ok(
                    *settings,
                    string_count as int,
                    *rect,
                    k,
                    #[trigger] lines@[k],
                ),
        decreases string_count - row,
    {
        let st: usize = if vertical {
            row
        } else {
            string_count - 1 - row
        };
        proof {
            lemma_prod_bound(row as int, 1_000, settings.space_string as int, 10_000);
            lemma_div_pos_is_pos(settings.space_string as int, 2);
            lemma_div_nonincreasing(settings.space_string as int, 2);
        }
        let low: i64 = center - half + (row as i64) * settings.space_string;
        let mid: i64 = low + settings.space_string / 2;
        let high: i64 = low + settings.space_string;
        if single {
            lines.push(
                StringLine {
                    string: st,
                    a: place(vertical, a_start, mid),
                    b: place(vertical, a_end, mid),
                },
            );
        } else {
            proof {
                lemma_fundamental_div_mod_converse_div(2 * row as int, 2, row as int, 0);
                lemma_fundamental_div_mod_converse_mod(2 * row as int, 2, row as int, 0);
                lemma_fundamental_div_mod_converse_div(2 * row as int + 1, 2, row as int, 1);
                lemma_fundamental_div_mod_converse_mod(2 * row as int + 1, 2, row as int, 1);
            }
            lines.push(
                StringLine {
                    string: st,
                    a: place(vertical, a_start, low),
                    b: place(vertical, a_end, low),
                },
            );
            lines.push(
                StringLine {
                    string: st,
                    a: place(vertical, a_start, high),
                    b: place(vertical, a_end, high),
                },
            );
        }
        row += 1;
    }

    // note cells, string-major
    let mut cells: Vec<Point> = Vec::new();
    let mut st: usize = 0;
    while st < string_count
        invariant
            st <= string_count,
            num_frets == settings.frets + 1,
            settings.wf(),
            rect.wf(),
            string_count <= 1_000,
            vertical == settings.vertical(),
            origin as int == origin_spec(*settings, *rect),
            center as int == center_spec(*settings, *rect),
            half as int == half_breadth_spec(*settings, string_count as int),
            0 <= half <= 10_000_000,
            cells@.len() == st * num_frets,
            forall|k: int|
                0 <= k < st * num_frets ==> note_cell_ok(
                    *settings,
                    string_count as int,
                    *rect,
                    k,
                    #[trigger] cells@[k],
                ),
        decreases string_count - st,
    {
        let row: usize = if vertical {
            st
        } else {
            string_count - 1 - st
        };
        proof {
            lemma_prod_bound(row as int, 1_000, settings.space_string as int, 10_000);
            lemma_div_pos_is_pos(settings.space_string as int, 2);
            lemma_div_nonincreasing(settings.space_string as int, 2);
        }
        let mid: i64 = center - half + (row as i64) * settings.space_string
            + settings.space_string / 2;
        let mut fr: usize = 0;
        while fr < num_frets
            invariant
                fr <= num_frets,
                st < string_count,
                num_frets == settings.frets + 1,
                settings.wf(),
                rect.wf(),
                string_count <= 1_000,
                vertical == settings.vertical(),
                origin as int == origin_spec(*settings, *rect),
                center as int == center_spec(*settings, *rect),
                half as int == half_breadth_spec(*settings, string_count as int),
                0 <= half <= 10_000_000,
                row as int == row_of_string_spec(*settings, string_count as int, st as int),
                mid as int == band_mid_spec(
                    *settings,
                    string_count as int,
                    *rect,
                    row as int,
                ),
                cells@.len() == st * num_frets + fr,
                forall|k: int|
                    0 <= k < st * num_frets + fr ==> note_cell_ok(
                        *settings,
                        string_count as int,
                        *rect,
                        k,
                        #[trigger] cells@[k],
                    ),
            decreases num_frets - fr,
        {
            proof {
                lemma_prod_bound(fr as int, 10_000, settings.space_fret as int, 10_000);
            }
            let along: i64 = origin + (fr as i64) * settings.space_fret;
            proof {
                lemma_fundamental_div_mod_converse_div(
                    st as int * num_frets as int + fr as int,
                    num_frets as int,
                    st as int,
                    fr as int,
                );
                lemma_fundamental_div_mod_converse_mod(
                    st as int * num_frets as int + fr as int,
                    num_frets as int,
                    st as int,
                    fr as int,
                );
            }
            cells.push(place(vertical, along, mid));
            fr += 1;
        }
        proof {
            assert((st as int + 1) * num_frets as int == st as int * num_frets as int
                + num_frets as int) by (nonlinear_arith);
        }
        st += 1;
    }

    FretboardLayout {
        fret_wire_positions: wires,
        fret_marker_positions: markers,
        string_line_positions: lines,
        note_cell_positions: cells,
        string_count,
        fret_count: settings.frets,
    }
}


/// One legend row: a role, its example bubble position, and where
/// its caption starts.
#[derive(Debug, PartialEq, Eq, Structural, Clone, Copy)]
pub struct LegendRow {
    pub role: crate::scales::NoteType,
    pub bubble: Point,
    pub caption: Point,
}

/// The legend panel: a fixed-size box anchored to the bottom-right
/// corner of the drawing area, one row per listed role.
pub struct LegendLayout {
    pub panel_min: Point,
    pub panel_max: Point,
    pub rows: Vec<LegendRow>,
}

/// The role listed in legend row `k`.
pub open spec fn legend_role_spec(k: int) -> crate::scales::NoteType {
    if k == 0 {
        crate::scales::NoteType::Root
    } else if k == 1 {
        crate::scales::NoteType::Triad
    } else if k == 2 {
        crate::scales::NoteType::InPentatonic
    } else if k == 3 {
        crate::scales::NoteType::Blue
    } else {
        crate::scales::NoteType::InDiatonic
    }
}

/// Row `k` of the legend: fixed row height below the panel corner,
/// caption to the right of the example bubble.
pub open spec fn legend_row_ok(r: DrawRect, k: int, e: LegendRow) -> bool {
    &&& e.role == legend_role_spec(k)
    &&& e.bubble.x as int == r.right as int - 260 + 25
    &&& e.bubble.y as int == r.bottom as int - 200 + 25 + 35 * k
    &&& e.caption.x as int == e.bubble.x as int + 30
    &&& e.caption.y as int == e.bubble.y as int
}

/// The legend panel's geometry: a fixed 250 by 190 box, 10 units in
/// from the bottom-right corner, listing the five in-scale roles.
pub fn legend_layout(rect: &DrawRect) -> (l: LegendLayout)
    requires
        rect.wf(),
    ensures
        l.panel_min.x as int == rect.right as int - 260,
        l.panel_min.y as int == rect.bottom as int - 200,
        l.panel_max.x as int == rect.right as int - 10,
        l.panel_max.y as int == rect.bottom as int - 10,
        l.rows@.len() == 5,
        forall|k: int| 0 <= k < 5 ==> legend_row_ok(*rect, k, #[trigger] l.rows@[k]),
{
    let min_x: i64 = rect.right - 260;
    let min_y: i64 = rect.bottom - 200;
    let bx: i64 = min_x + 25;
    let mut rows: Vec<LegendRow> = Vec::new();
    rows.push(
        LegendRow {
            role: crate::scales::NoteType::Root,
            bubble: Point { x: bx, y: min_y + 25 },
            caption: Point { x: bx + 30, y: min_y + 25 },
        },
    );
    rows.push(
        LegendRow {
            role: crate::scales::NoteType::Triad,
            bubble: Point { x: bx, y: min_y + 60 },
            caption: Point { x: bx + 30, y: min_y + 60 },
        },
    );
    rows.push(
        LegendRow {
            role: crate::scales::NoteType::InPentatonic,
            bubble: Point { x: bx, y: min_y + 95 },
            caption: Point { x: bx + 30, y: min_y + 95 },
        },
    );
    rows.push(
        LegendRow {
            role: crate::scales::NoteType::Blue,
            bubble: Point { x: bx, y: min_y + 130 },
            caption: Point { x: bx + 30, y: min_y + 130 },
        },
    );
    rows.push(
        LegendRow {
            role: crate::scales::NoteType::InDiatonic,
            bubble: Point { x: bx, y: min_y + 165 },
            caption: Point { x: bx + 30, y: min_y + 165 },
        },
    );
    LegendLayout {
        panel_min: Point { x: min_x, y: min_y },
        panel_max: Point { x: rect.right - 10, y: rect.bottom - 10 },
        rows,
    }
}

/// Two points at the same neck and cross coordinates are the same
/// point.
proof fn lemma_point_unique(p1: Point, p2: Point, vertical: bool, along: int, across: int)
    requires
        point_is(p1, vertical, along, across),
        point_is(p2, vertical, along, across),
    ensures
        p1 == p2,
{
}

/// The layout is a pure function of its inputs: two layouts computed
/// from identical settings, string count and rectangle are identical
/// in every position.
pub proof fn lemma_layout_deterministic(
    s: ViewSettings,
    string_count: int,
    r: DrawRect,
    l1: FretboardLayout,
    l2: FretboardLayout,
)
    requires
        layout_matches(s, string_count, r, l1),
        layout_matches(s, string_count, r, l2),
    ensures
        l1.string_count == l2.string_count,
        l1.fret_count == l2.fret_count,
        l1.fret_wire_positions@ == l2.fret_wire_positions@,
        l1.fret_marker_positions@ == l2.fret_marker_positions@,
        l1.string_line_positions@ == l2.string_line_positions@,
        l1.note_cell_positions@ == l2.note_cell_positions@,
{
    assert(l1.fret_wire_positions@ =~= l2.fret_wire_positions@) by {
        assert forall|k: int|
            0 <= k < l1.fret_wire_positions@.len() implies l1.fret_wire_positions@[k]
            == l2.fret_wire_positions@[k] by {
            let w1 = l1.fret_wire_positions@[k];
            let w2 = l2.fret_wire_positions@[k];
            lemma_point_unique(
                w1.a,
                w2.a,
                s.vertical(),
                wire_along_spec(s, r, k),
                center_spec(s, r) - half_breadth_spec(s, string_count),
            );
            lemma_point_unique(
                w1.b,
                w2.b,
                s.vertical(),
                wire_along_spec(s, r, k),
                center_spec(s, r) + half_breadth_spec(s, string_count),
            );
        }
    }
    assert(l1.fret_marker_positions@ =~= l2.fret_marker_positions@) by {
        assert forall|k: int|
            0 <= k < l1.fret_marker_positions@.len() implies l1.fret_marker_positions@[k]
            == l2.fret_marker_positions@[k] by {
            let m1 = l1.fret_marker_positions@[k];
            let m2 = l2.fret_marker_positions@[k];
            lemma_point_unique(
                m1.pos_a,
                m2.pos_a,
                s.vertical(),
                wire_along_spec(s, r, k),
                edge_near_spec(s, string_count, r),
            );
            lemma_point_unique(
                m1.pos_b,
                m2.pos_b,
                s.vertical(),
                wire_along_spec(s, r, k),
                edge_far_spec(s, string_count, r),
            );
        }
    }
    assert(l1.string_line_positions@ =~= l2.string_line_positions@) by {
        assert forall|k: int|
            0 <= k < l1.string_line_positions@.len() implies l1.string_line_positions@[k]
            == l2.string_line_positions@[k] by {
            let e1 = l1.string_line_positions@[k];
            let e2 = l2.string_line_positions@[k];
            if s.string_style == StringStyle::SingleLine {
                lemma_point_unique(
                    e1.a,
                    e2.a,
                    s.vertical(),
                    along_start_spec(s, r),
                    band_mid_spec(s, string_count, r, k),
                );
                lemma_point_unique(
                    e1.b,
                    e2.b,
                    s.vertical(),
                    along_end_spec(s, r),
                    band_mid_spec(s, string_count, r, k),
                );
            } else {
                let across = if k % 2 == 0 {
                    band_low_spec(s, string_count, r, k / 2)
                } else {
                    band_low_spec(s, string_count, r, k / 2) + s.space_string as int
                };
                lemma_point_unique(e1.a, e2.a, s.vertical(), along_start_spec(s, r), across);
                lemma_point_unique(e1.b, e2.b, s.vertical(), along_end_spec(s, r), across);
            }
        }
    }
    assert(l1.note_cell_positions@ =~= l2.note_cell_positions@) by {
        assert forall|k: int|
            0 <= k < l1.note_cell_positions@.len() implies l1.note_cell_positions@[k]
            == l2.note_cell_positions@[k] by {
            let per = s.frets as int + 1;
            lemma_point_unique(
                l1.note_cell_positions@[k],
                l2.note_cell_positions@[k],
                s.vertical(),
                note_along_spec(s, r, k % per),
                band_mid_spec(s, string_count, r, row_of_string_spec(s, string_count, k / per)),
            );
        }
    }
}

/// The settings with the given orientation and everything else kept.
pub open spec fn with_orientation(s: ViewSettings, o: Orientation) -> ViewSettings {
    ViewSettings { orientation: o, ..s }
}

/// The note cell of string `st` at fret `f` in a computed layout.
pub open spec fn cell_of(l: FretboardLayout, s: ViewSettings, st: int, f: int) -> Point {
    l.note_cell_positions@[st * (s.frets as int + 1) + f]
}

/// Orientation symmetry.  Between a vertical and a horizontal layout
/// of the same settings, string count and rectangle, the two screen
/// axes swap roles: the fret index determines Y on a vertical board
/// and X on a horizontal one, the string index the other axis.  A
/// fret's offset down the neck is the same in both, and consecutive
/// fret indices stay one fret spacing apart in both, so their order
/// along the neck axis is unchanged.  Consecutive string indices
/// stay one string spacing apart in both; the across axis runs
/// mirrored (the display order reverses with the orientation), which
/// keeps string 0 on the same visual side of the board.
pub proof fn lemma_orientation_symmetry(
    s: ViewSettings,
    string_count: int,
    r: DrawRect,
    lv: FretboardLayout,
    lh: FretboardLayout,
    st: int,
    f: int,
)
    requires
        s.wf(),
        layout_matches(with_orientation(s, Orientation::Vertical), string_count, r, lv),
        layout_matches(with_orientation(s, Orientation::Horizontal), string_count, r, lh),
        0 <= st < string_count,
        0 <= f <= s.frets,
    ensures
        ({
            let sv = with_orientation(s, Orientation::Vertical);
            let sh = with_orientation(s, Orientation::Horizontal);
            &&& cell_of(lv, sv, st, f).y as int == note_along_spec(sv, r, f)
            &&& cell_of(lv, sv, st, f).x as int == band_mid_spec(sv, string_count, r, st)
            &&& cell_of(lh, sh, st, f).x as int == note_along_spec(sh, r, f)
            &&& cell_of(lh, sh, st, f).y as int == band_mid_spec(
                sh,
                string_count,
                r,
                string_count - 1 - st,
            )
            &&& cell_of(lv, sv, st, f).y as int - origin_spec(sv, r) == cell_of(
                lh,
                sh,
                st,
                f,
            ).x as int - origin_spec(sh, r)
            &&& f < s.frets ==> cell_of(lv, sv, st, f + 1).y as int == cell_of(
                lv,
                sv,
                st,
                f,
            ).y as int + s.space_fret as int
            &&& f < s.frets ==> cell_of(lh, sh, st, f + 1).x as int == cell_of(
                lh,
                sh,
                st,
                f,
            ).x as int + s.space_fret as int
            &&& st + 1 < string_count ==> cell_of(lv, sv, st + 1, f).x as int == cell_of(
                lv,
                sv,
                st,
                f,
            ).x as int + s.space_string as int
            &&& st + 1 < string_count ==> cell_of(lh, sh, st + 1, f).y as int == cell_of(
                lh,
                sh,
                st,
                f,
            ).y as int - s.space_string as int
        }),
{
    let sv = with_orientation(s, Orientation::Vertical);
    let sh = with_orientation(s, Orientation::Horizontal);
    lemma_cell_coords(sv, string_count, r, lv, st, f);
    lemma_cell_coords(sh, string_count, r, lh, st, f);
    if f < s.frets {
        lemma_cell_coords(sv, string_count, r, lv, st, f + 1);
        lemma_cell_coords(sh, string_count, r, lh, st, f + 1);
    }
    if st + 1 < string_count {
        lemma_cell_coords(sv, string_count, r, lv, st + 1, f);
        lemma_cell_coords(sh, string_count, r, lh, st + 1, f);
    }
    let sp = s.space_string as int;
    let sf = s.space_fret as int;
    assert((f + 1) * sf == f * sf + sf) by (nonlinear_arith);
    assert((st + 1) * sp == st * sp + sp) by (nonlinear_arith);
    assert((string_count - 1 - st) * sp == (string_count - 1 - (st + 1)) * sp + sp)
        by (nonlinear_arith);
}

/// The note cell of string `st` at fret `f` sits at the intersection
/// of its string's centerline and its fret's note line.
pub proof fn lemma_cell_coords(
    s: ViewSettings,
    string_count: int,
    r: DrawRect,
    l: FretboardLayout,
    st: int,
    f: int,
)
    requires
        layout_matches(s, string_count, r, l),
        0 <= st < string_count,
        0 <= f <= s.frets,
    ensures
        point_is(
            cell_of(l, s, st, f),
            s.vertical(),
            note_along_spec(s, r, f),
            band_mid_spec(s, string_count, r, row_of_string_spec(s, string_count, st)),
        ),
{
    let per = s.frets as int + 1;
    let k = st * per + f;
    lemma_fundamental_div_mod_converse_div(k, per, st, f);
    lemma_fundamental_div_mod_converse_mod(k, per, st, f);
    assert(0 <= k < string_count * per) by {
        assert(st * per + f < string_count * per) by (nonlinear_arith)
            requires
                0 <= st < string_count,
                0 <= f < per,
        ;
        lemma_mul_nonnegative(st, per);
    }
    assert(note_cell_ok(s, string_count, r, k, l.note_cell_positions@[k]));
}

} // verus!
