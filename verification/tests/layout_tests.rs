use guitar_scales::intervals::{ScaleIntervals, ScaleSize as StepSize};
use guitar_scales::layout::{layout_positions, legend_layout, DrawRect, FretMarker, NoteColors,
    NoteMarker, Orientation, StringStyle, ViewSettings};
use guitar_scales::scales::{NoteType, Scale, ScaleSize, ScaleType};

fn settings(orientation: Orientation) -> ViewSettings {
    ViewSettings {
        orientation,
        frets: 12,
        space_string: 50,
        space_fret: 50,
        fret_marks: FretMarker::Dots,
        note_marks: NoteMarker::Letters,
        note_colors: NoteColors::ByTone,
        string_style: StringStyle::SingleLine,
        dark_mode: false,
        show_legend: true,
    }
}

fn rect() -> DrawRect {
    DrawRect { left: 0, top: 0, right: 600, bottom: 600 }
}

#[test]
fn layout_is_a_pure_function() {
    // identical inputs give identical outputs, list for list
    let s = settings(Orientation::Vertical);
    let r = rect();
    let a = layout_positions(&s, 6, &r);
    let b = layout_positions(&s, 6, &r);
    assert_eq!(a.fret_wire_positions, b.fret_wire_positions);
    assert_eq!(a.fret_marker_positions, b.fret_marker_positions);
    assert_eq!(a.string_line_positions, b.string_line_positions);
    assert_eq!(a.note_cell_positions, b.note_cell_positions);
    assert_eq!(a.string_count, b.string_count);
    assert_eq!(a.fret_count, b.fret_count);
}

#[test]
fn orientation_swaps_the_axes() {
    // on a square rectangle the neck coordinate of a cell is its Y
    // when vertical and its X when horizontal; the across axis runs
    // mirrored so string 0 keeps its visual side
    let sv = settings(Orientation::Vertical);
    let sh = settings(Orientation::Horizontal);
    let r = rect();
    let sc = 6usize;
    let per = sv.frets + 1;
    let lv = layout_positions(&sv, sc, &r);
    let lh = layout_positions(&sh, sc, &r);
    for st in 0..sc {
        for f in 0..per {
            let cv = lv.note_cell_positions[st * per + f];
            let ch = lh.note_cell_positions[st * per + f];
            assert_eq!(cv.y, ch.x);
            let mirrored = lh.note_cell_positions[(sc - 1 - st) * per + f];
            assert_eq!(cv.x, mirrored.y);
        }
    }
    // fret order down the neck is kept in both orientations
    for f in 0..sv.frets {
        assert!(lv.note_cell_positions[f].y < lv.note_cell_positions[f + 1].y);
        assert!(lh.note_cell_positions[f].x < lh.note_cell_positions[f + 1].x);
    }
}

#[test]
fn vertical_geometry_in_drawing_units() {
    let s = settings(Orientation::Vertical);
    let r = rect();
    let l = layout_positions(&s, 6, &r);
    // 13 fret wires: the nut at the origin, wire f between f and f+1
    assert_eq!(l.fret_wire_positions.len(), 13);
    let nut = l.fret_wire_positions[0];
    assert!(nut.is_nut);
    assert_eq!(nut.a.y, 10);
    assert_eq!(nut.b.y, 10);
    let w1 = l.fret_wire_positions[1];
    assert!(!w1.is_nut);
    assert_eq!(w1.a.y, 10 + 50 + 25);
    // strings centered: half breadth 150 around center x 300
    assert_eq!(nut.a.x, 300 - 150);
    assert_eq!(nut.b.x, 300 + 150);
    // note cells sit on the fret-index line, not the wire
    let cell_0_0 = l.note_cell_positions[0];
    assert_eq!(cell_0_0.y, 10);
    assert_eq!(cell_0_0.x, 300 - 150 + 25);
    let cell_0_3 = l.note_cell_positions[3];
    assert_eq!(cell_0_3.y, 10 + 3 * 50);
    // string lines span the rectangle
    assert_eq!(l.string_line_positions.len(), 6);
    assert_eq!(l.string_line_positions[0].a.y, 0);
    assert_eq!(l.string_line_positions[0].b.y, 600);
    assert_eq!(l.string_line_positions[0].a.x, 175);
    assert_eq!(l.string_line_positions[0].string, 0);
}

#[test]
fn markers_sit_at_conventional_frets() {
    let mut s = settings(Orientation::Vertical);
    s.frets = 15;
    let r = rect();
    let l = layout_positions(&s, 6, &r);
    assert_eq!(l.fret_marker_positions.len(), 16);
    let shown: Vec<usize> = l
        .fret_marker_positions
        .iter()
        .filter(|m| m.shown)
        .map(|m| m.fret)
        .collect();
    assert_eq!(shown, vec![3, 5, 7, 9, 12, 15]);
    for m in &l.fret_marker_positions {
        assert_eq!(m.octave, m.fret == 12);
    }
    // markers sit just beyond the neck edges at the wire position
    let m3 = l.fret_marker_positions[3];
    assert_eq!(m3.pos_a.x, 300 - 150 - 10);
    assert_eq!(m3.pos_b.x, 300 + 150 + 10);
    assert_eq!(m3.pos_a.y, 10 + 3 * 50 + 25);
    // switching markers off hides all of them
    s.fret_marks = FretMarker::NoMarks;
    let off = layout_positions(&s, 6, &r);
    assert!(off.fret_marker_positions.iter().all(|m| !m.shown));
}

#[test]
fn zero_strings_still_render_frets() {
    let s = settings(Orientation::Horizontal);
    let r = rect();
    let l = layout_positions(&s, 0, &r);
    assert_eq!(l.fret_wire_positions.len(), 13);
    assert_eq!(l.string_line_positions.len(), 0);
    assert_eq!(l.note_cell_positions.len(), 0);
    assert_eq!(l.string_count, 0);
}

#[test]
fn cell_bounds_style_draws_band_boundaries() {
    let mut s = settings(Orientation::Vertical);
    s.string_style = StringStyle::CellBounds;
    let r = rect();
    let l = layout_positions(&s, 2, &r);
    assert_eq!(l.string_line_positions.len(), 4);
    // row 0 band: low then high boundary, center 300, half breadth 50
    assert_eq!(l.string_line_positions[0].a.x, 250);
    assert_eq!(l.string_line_positions[1].a.x, 300);
    assert_eq!(l.string_line_positions[2].a.x, 300);
    assert_eq!(l.string_line_positions[3].a.x, 350);
}

#[test]
fn horizontal_display_reverses_string_rows() {
    // in a horizontal layout row 0 belongs to the highest string
    // index, so string 0 stays on the same visual side
    let s = settings(Orientation::Horizontal);
    let r = rect();
    let l = layout_positions(&s, 3, &r);
    assert_eq!(l.string_line_positions[0].string, 2);
    assert_eq!(l.string_line_positions[1].string, 1);
    assert_eq!(l.string_line_positions[2].string, 0);
}

#[test]
fn legend_is_anchored_bottom_right() {
    let r = DrawRect { left: 0, top: 0, right: 800, bottom: 600 };
    let l = legend_layout(&r);
    assert_eq!(l.panel_min.x, 800 - 260);
    assert_eq!(l.panel_min.y, 600 - 200);
    assert_eq!(l.panel_max.x, 790);
    assert_eq!(l.panel_max.y, 590);
    assert_eq!(l.rows.len(), 5);
    let roles: Vec<NoteType> = l.rows.iter().map(|row| row.role).collect();
    assert_eq!(roles, vec![NoteType::Root, NoteType::Triad, NoteType::InPentatonic,
        NoteType::Blue, NoteType::InDiatonic]);
    for (k, row) in l.rows.iter().enumerate() {
        assert_eq!(row.bubble.x, 540 + 25);
        assert_eq!(row.bubble.y, 400 + 25 + 35 * k as i64);
        assert_eq!(row.caption.x, row.bubble.x + 30);
        assert_eq!(row.caption.y, row.bubble.y);
    }
}

#[test]
fn interval_patterns_match_their_tables() {
    let cases: [(bool, StepSize, Vec<usize>); 6] = [
        (true, StepSize::Diatonic, vec![2, 1, 2, 2, 1, 2, 2]),
        (false, StepSize::Diatonic, vec![2, 2, 1, 2, 2, 2, 1]),
        (true, StepSize::Blues, vec![3, 2, 1, 1, 3, 2]),
        (false, StepSize::Blues, vec![2, 1, 1, 3, 2, 3]),
        (true, StepSize::Pentatonic, vec![3, 2, 2, 3, 2]),
        (false, StepSize::Pentatonic, vec![2, 2, 3, 2, 3]),
    ];
    for (is_minor, size, expect) in cases {
        let si = ScaleIntervals { name: "test".to_string(), is_minor, size };
        assert_eq!(si.intervals(), expect);
    }
}

#[test]
fn interval_walks_land_on_the_degree_tables() {
    // the cumulative sums of each step pattern are the degree table
    // of the matching scale, closed by the octave
    let cases: [(bool, StepSize, ScaleType, ScaleSize); 6] = [
        (true, StepSize::Diatonic, ScaleType::Minor, ScaleSize::Diatonic),
        (false, StepSize::Diatonic, ScaleType::Major, ScaleSize::Diatonic),
        (true, StepSize::Blues, ScaleType::Minor, ScaleSize::Blues),
        (false, StepSize::Blues, ScaleType::Major, ScaleSize::Blues),
        (true, StepSize::Pentatonic, ScaleType::Minor, ScaleSize::Pentatonic),
        (false, StepSize::Pentatonic, ScaleType::Major, ScaleSize::Pentatonic),
    ];
    for (is_minor, size, typ, siz) in cases {
        let si = ScaleIntervals { name: "test".to_string(), is_minor, size };
        let mut expect = Scale { typ, siz, key: 0 }.notes();
        expect.push(12);
        assert_eq!(si.notes(), expect);
    }
    let minor_penta = ScaleIntervals {
        name: "minor pentatonic".to_string(),
        is_minor: true,
        size: StepSize::Pentatonic,
    };
    assert_eq!(minor_penta.notes(), vec![0, 3, 5, 7, 10, 12]);
}
