use guitar_scales::layout::NoteMarker;
use guitar_scales::scales::{note_letter, to_decimal, Bubble, DisplayColor, NoteType, Scale,
    ScaleSize, ScaleType, TOTAL_TONES};

fn scale(typ: ScaleType, siz: ScaleSize, key: usize) -> Scale {
    Scale { typ, siz, key }
}

#[test]
fn minor_pentatonic_c_classifies_e_flat() {
    // C minor pentatonic; absolute position 3 is a triad tone spelled flat
    let s = scale(ScaleType::Minor, ScaleSize::Pentatonic, 0);
    assert_eq!(s.normalize(3), 3);
    assert!(s.is_note_in_scale(3));
    assert_eq!(s.get_note_type(3), NoteType::Triad);
    assert!(s.prefers_flats());
    assert_eq!(s.get_note_letter(3), "E♭");
    assert_eq!(s.get_note_number(3), "b3");
}

#[test]
fn open_e_string_is_root_in_e_major() {
    // standard guitar low E over an E major diatonic scale
    let strings: Vec<usize> = vec![4, 9, 14, 19, 23, 28];
    let s = scale(ScaleType::Major, ScaleSize::Diatonic, 4);
    let absolute = guitar_scales::layout::sounded_note(&strings, 0, 0);
    assert_eq!(absolute, 4);
    assert_eq!(s.normalize(absolute), 0);
    assert!(s.is_note_in_scale(absolute as i16));
    assert_eq!(s.get_note_type(s.normalize(absolute)), NoteType::Root);
    for marker in [NoteMarker::AllNotes, NoteMarker::Letters, NoteMarker::Numbers,
        NoteMarker::Debug] {
        let b = s.get_bubble(false, absolute, marker);
        assert!(b.color != DisplayColor::Transparent);
        assert!(!b.text.is_empty());
    }
}

#[test]
fn classification_repeats_every_octave() {
    let s = scale(ScaleType::Minor, ScaleSize::Blues, 5);
    for n in 0..40usize {
        assert!(s.normalize(n) < 12);
        assert_eq!(s.normalize(n), s.normalize(n + 12));
        assert_eq!(s.is_note_in_scale(n as i16), s.is_note_in_scale(n as i16 + 12));
        for marker in [NoteMarker::AllNotes, NoteMarker::Letters, NoteMarker::Numbers] {
            let a = s.get_bubble(true, n, marker);
            let b = s.get_bubble(true, n + 12, marker);
            assert_eq!(a.color, b.color);
            assert_eq!(a.text, b.text);
            assert_eq!(a.text_color, b.text_color);
        }
    }
}

#[test]
fn negative_positions_wrap_upward() {
    // -1 wraps to 11, not -1
    let s = scale(ScaleType::Major, ScaleSize::Diatonic, 0);
    assert!(s.is_note_in_scale(-1)); // tone 11 is the major seventh
    assert!(!s.is_note_in_scale(-2)); // tone 10 is out of C major
    let t = scale(ScaleType::Minor, ScaleSize::Diatonic, 7);
    for n in -24..24i16 {
        assert_eq!(t.is_note_in_scale(n), t.is_note_in_scale(n + 12));
    }
}

#[test]
fn letter_tables_spell_sharps_and_flats() {
    let sharps = ["C", "C♯", "D", "D♯", "E", "F", "F♯", "G", "G♯", "A", "A♯", "B"];
    let flats = ["C", "D♭", "D", "E♭", "E", "F", "G♭", "G", "A♭", "A", "B♭", "B"];
    for i in 0..TOTAL_TONES {
        assert_eq!(note_letter(i, false), sharps[i]);
        assert_eq!(note_letter(i, true), flats[i]);
    }
    assert_eq!(note_letter(12, false), "");
    assert_eq!(note_letter(99, true), "");
}

#[test]
fn degree_numeral_table() {
    let numerals = ["R", "b2", "2", "b3", "3", "4", "b5", "5", "b6", "6", "b7", "7"];
    let s = scale(ScaleType::Major, ScaleSize::Diatonic, 0);
    for i in 0..TOTAL_TONES {
        assert_eq!(s.get_note_number(i), numerals[i]);
    }
    assert_eq!(s.get_note_number(14), "2");
}

#[test]
fn degree_sets_have_documented_sizes() {
    for typ in [ScaleType::Minor, ScaleType::Major] {
        for (siz, expect) in [
            (ScaleSize::Diatonic, 7),
            (ScaleSize::Blues, 6),
            (ScaleSize::Pentatonic, 5),
            (ScaleSize::TriadsOnly, 3),
            (ScaleSize::RootOnly, 1),
        ] {
            let notes = scale(typ, siz, 0).notes();
            assert_eq!(notes.len(), expect);
            assert_eq!(notes[0], 0);
            for i in 0..notes.len() {
                assert!(notes[i] < 12);
                for j in 0..i {
                    assert!(notes[j] < notes[i]);
                }
            }
        }
    }
}

#[test]
fn exact_degree_tables() {
    assert_eq!(scale(ScaleType::Minor, ScaleSize::Diatonic, 0).notes(), vec![0, 2, 3, 5, 7, 8, 10]);
    assert_eq!(scale(ScaleType::Minor, ScaleSize::Blues, 0).notes(), vec![0, 3, 5, 6, 7, 10]);
    assert_eq!(scale(ScaleType::Minor, ScaleSize::Pentatonic, 0).notes(), vec![0, 3, 5, 7, 10]);
    assert_eq!(scale(ScaleType::Minor, ScaleSize::TriadsOnly, 0).notes(), vec![0, 3, 7]);
    assert_eq!(scale(ScaleType::Minor, ScaleSize::RootOnly, 0).notes(), vec![0]);
    assert_eq!(scale(ScaleType::Major, ScaleSize::Diatonic, 0).notes(), vec![0, 2, 4, 5, 7, 9, 11]);
    assert_eq!(scale(ScaleType::Major, ScaleSize::Blues, 0).notes(), vec![0, 2, 3, 4, 7, 9]);
    assert_eq!(scale(ScaleType::Major, ScaleSize::Pentatonic, 0).notes(), vec![0, 2, 4, 7, 9]);
    assert_eq!(scale(ScaleType::Major, ScaleSize::TriadsOnly, 0).notes(), vec![0, 4, 7]);
    assert_eq!(scale(ScaleType::Major, ScaleSize::RootOnly, 0).notes(), vec![0]);
}

#[test]
fn roles_map_to_distinct_color_pairs() {
    let roles = [NoteType::Root, NoteType::Blue, NoteType::Triad, NoteType::InPentatonic,
        NoteType::InDiatonic, NoteType::NotInScale];
    for dark in [false, true] {
        let pairs: Vec<(DisplayColor, DisplayColor)> =
            roles.iter().map(|r| Scale::color_lookup(dark, *r)).collect();
        for i in 0..pairs.len() {
            for j in 0..i {
                assert_ne!(pairs[i], pairs[j]);
            }
        }
    }
    // the distinguished roles keep their colors across the two modes
    for role in [NoteType::Blue, NoteType::Triad, NoteType::InPentatonic, NoteType::InDiatonic] {
        assert_eq!(Scale::color_lookup(false, role), Scale::color_lookup(true, role));
    }
}

#[test]
fn blue_note_per_mode() {
    let minor = scale(ScaleType::Minor, ScaleSize::Blues, 0);
    let major = scale(ScaleType::Major, ScaleSize::Blues, 0);
    for t in 0..12usize {
        assert_eq!(minor.is_blue_note(t), t == 6);
        assert_eq!(major.is_blue_note(t), t == 3);
    }
}

#[test]
fn note_roles_per_mode() {
    let minor = scale(ScaleType::Minor, ScaleSize::Diatonic, 0);
    assert_eq!(minor.get_note_type(0), NoteType::Root);
    assert_eq!(minor.get_note_type(6), NoteType::Blue);
    assert_eq!(minor.get_note_type(3), NoteType::Triad);
    assert_eq!(minor.get_note_type(7), NoteType::Triad);
    assert_eq!(minor.get_note_type(2), NoteType::InDiatonic);
    assert_eq!(minor.get_note_type(8), NoteType::InDiatonic);
    assert_eq!(minor.get_note_type(5), NoteType::InPentatonic);
    assert_eq!(minor.get_note_type(10), NoteType::InPentatonic);
    assert_eq!(minor.get_note_type(1), NoteType::NotInScale);
    let major = scale(ScaleType::Major, ScaleSize::Diatonic, 0);
    assert_eq!(major.get_note_type(0), NoteType::Root);
    assert_eq!(major.get_note_type(3), NoteType::Blue);
    assert_eq!(major.get_note_type(4), NoteType::Triad);
    assert_eq!(major.get_note_type(7), NoteType::Triad);
    assert_eq!(major.get_note_type(2), NoteType::InPentatonic);
    assert_eq!(major.get_note_type(9), NoteType::InPentatonic);
    assert_eq!(major.get_note_type(5), NoteType::InDiatonic);
    assert_eq!(major.get_note_type(11), NoteType::InDiatonic);
    assert_eq!(major.get_note_type(6), NoteType::NotInScale);
}

#[test]
fn flats_preference_tables() {
    for key in 0..12usize {
        let major = scale(ScaleType::Major, ScaleSize::Diatonic, key);
        let minor = scale(ScaleType::Minor, ScaleSize::Diatonic, key);
        assert_eq!(major.prefers_flats(), matches!(key, 0 | 1 | 3 | 5 | 8 | 10));
        assert_eq!(minor.prefers_flats(), matches!(key, 0 | 2 | 3 | 5 | 7 | 9 | 10));
    }
}

#[test]
fn out_of_scale_cells_show_only_when_asked() {
    // C minor pentatonic; tone 1 is out of scale
    let s = scale(ScaleType::Minor, ScaleSize::Pentatonic, 0);
    assert!(!s.is_note_in_scale(1));
    let hidden = s.get_bubble(false, 1, NoteMarker::Letters);
    assert_eq!(hidden.color, DisplayColor::Transparent);
    assert_eq!(hidden.text, "");
    let hidden2 = s.get_bubble(false, 1, NoteMarker::Numbers);
    assert_eq!(hidden2.color, DisplayColor::Transparent);
    assert_eq!(hidden2.text, "");
    let dim = s.get_bubble(false, 1, NoteMarker::AllNotes);
    assert_eq!(dim.color, DisplayColor::LightGray);
    assert_eq!(dim.text, "D♭");
    let debug = s.get_bubble(false, 1, NoteMarker::Debug);
    assert_eq!(debug.text, "1");
}

#[test]
fn debug_labels_are_decimal_indexes() {
    let s = scale(ScaleType::Major, ScaleSize::Diatonic, 4);
    let b = s.get_bubble(true, 28, NoteMarker::Debug);
    assert_eq!(b.text, "28");
    assert_eq!(to_decimal(0), "0");
    assert_eq!(to_decimal(9), "9");
    assert_eq!(to_decimal(10), "10");
    assert_eq!(to_decimal(4095), "4095");
}

#[test]
fn legend_bubbles_show_example_tones() {
    // C minor: the blue note renders flat, and numerals follow the
    // example tone
    let s = scale(ScaleType::Minor, ScaleSize::Blues, 0);
    let blue = s.get_bubble_from(false, NoteType::Blue, NoteMarker::Letters);
    assert_eq!(blue.text, "G♭");
    assert_eq!(blue.color, DisplayColor::Blue);
    assert_eq!(blue.text_color, DisplayColor::White);
    let blue_num = s.get_bubble_from(false, NoteType::Blue, NoteMarker::Numbers);
    assert_eq!(blue_num.text, "b5");
    // B major: the triad example lands on the major third
    let t = scale(ScaleType::Major, ScaleSize::Diatonic, 7);
    let triad = t.get_bubble_from(true, NoteType::Triad, NoteMarker::Letters);
    assert_eq!(triad.text, "B");
    assert_eq!(triad.color, DisplayColor::Gold);
}

#[test]
fn bubble_constructors() {
    let blank = Bubble::blank();
    assert_eq!(blank.color, DisplayColor::Transparent);
    assert_eq!(blank.text, "");
    assert_eq!(blank.text_color, DisplayColor::Black);
    let made = Bubble::new((DisplayColor::Gold, DisplayColor::Black), "b3".to_string());
    assert_eq!(made.color, DisplayColor::Gold);
    assert_eq!(made.text, "b3");
    assert_eq!(made.text_color, DisplayColor::Black);
}

#[test]
fn root_is_always_in_scale() {
    for typ in [ScaleType::Minor, ScaleType::Major] {
        for siz in [ScaleSize::Diatonic, ScaleSize::Blues, ScaleSize::Pentatonic,
            ScaleSize::TriadsOnly, ScaleSize::RootOnly] {
            for key in 0..12usize {
                let s = scale(typ, siz, key);
                assert!(s.is_note_in_scale(key as i16));
                assert_eq!(s.get_note_type(0), NoteType::Root);
            }
        }
    }
}
