use guitar_scales::instruments::{offset_strings, Instrument, Registry, Tuning};

#[test]
fn drop_d_shape_drops_the_low_string() {
    // a drop-D shape keeps every tone non-negative, so no octave is
    // added and only the low string moves down a whole step
    let base: Vec<usize> = vec![4, 9, 14, 19, 23, 28];
    let shape: Vec<i32> = vec![-2, 0, 0, 0, 0, 0];
    let derived = offset_strings(&base, &shape, 0, false);
    assert_eq!(derived, vec![2, 9, 14, 19, 23, 28]);
}

#[test]
fn negative_tones_are_lifted_by_whole_octaves() {
    // one string would land below zero: the whole tuning moves up an
    // octave
    let base: Vec<usize> = vec![0, 5];
    let shape: Vec<i32> = vec![-3, 0];
    assert_eq!(offset_strings(&base, &shape, 0, false), vec![9, 17]);
    // a deep transpose can need the lift too
    let base2: Vec<usize> = vec![4, 9];
    let shape2: Vec<i32> = vec![0, 0];
    assert_eq!(offset_strings(&base2, &shape2, -5, false), vec![11, 16]);
    // two octaves down needs two octaves back up
    assert_eq!(offset_strings(&base2, &shape2, -28, false), vec![0, 5]);
}

#[test]
fn mirrored_tunings_reverse_string_order() {
    let base: Vec<usize> = vec![4, 9, 14];
    let shape: Vec<i32> = vec![0, 0, 0];
    assert_eq!(offset_strings(&base, &shape, 0, true), vec![14, 9, 4]);
    let empty: Vec<usize> = vec![];
    let empty_shape: Vec<i32> = vec![];
    assert_eq!(offset_strings(&empty, &empty_shape, 0, true), Vec::<usize>::new());
}

#[test]
fn guitar_preset_tunings() {
    let g = Instrument::guitar();
    assert_eq!(g.name, "Guitar");
    assert_eq!(g.tune_index, 0);
    assert_eq!(g.tunings.len(), 11);
    assert_eq!(g.tunings[0].name, "Standard");
    assert_eq!(g.tunings[0].strings, vec![4, 9, 14, 19, 23, 28]);
    assert_eq!(g.tunings[1].name, "Standard (lefty)");
    assert_eq!(g.tunings[1].strings, vec![28, 23, 19, 14, 9, 4]);
    assert_eq!(g.tunings[2].strings, vec![3, 8, 13, 18, 22, 27]);
    assert_eq!(g.tunings[3].strings, vec![2, 7, 12, 17, 21, 26]);
    assert_eq!(g.tunings[4].name, "DROP D");
    assert_eq!(g.tunings[4].strings, vec![2, 9, 14, 19, 23, 28]);
    assert_eq!(g.tunings[5].name, "OPEN D");
    assert_eq!(g.tunings[5].strings, vec![2, 9, 14, 18, 21, 26]);
    assert_eq!(g.tunings[6].name, "OPEN E");
    assert_eq!(g.tunings[6].strings, vec![4, 11, 16, 20, 23, 28]);
    assert_eq!(g.tunings[7].name, "OPEN F");
    assert_eq!(g.tunings[7].strings, vec![0, 5, 12, 17, 21, 24]);
    assert_eq!(g.tunings[8].name, "OPEN G");
    assert_eq!(g.tunings[8].strings, vec![2, 7, 14, 19, 23, 26]);
    assert_eq!(g.tunings[9].name, "OPEN A");
    assert_eq!(g.tunings[9].strings, vec![4, 9, 16, 21, 25, 28]);
    assert_eq!(g.tunings[10].name, "OPEN C");
    assert_eq!(g.tunings[10].strings, vec![0, 6, 11, 18, 23, 27]);
}

#[test]
fn bowed_and_plucked_presets() {
    assert_eq!(Instrument::violin().tunings[0].strings, vec![7, 14, 21, 28]);
    assert_eq!(Instrument::cello().tunings[0].strings, vec![0, 7, 14, 21]);
    assert_eq!(Instrument::ukulele().tunings[0].strings, vec![7, 12, 16, 21]);
    assert_eq!(Instrument::banjo().tunings[0].strings, vec![7, 14, 19, 23, 26]);
    assert_eq!(Instrument::none().tunings.len(), 0);
    let d = Instrument::default();
    assert_eq!(d.name, "None");
    assert_eq!(d.tunings.len(), 0);
}

#[test]
fn removing_the_last_instrument_is_refused() {
    // exactly one instrument remains: the registry is unchanged and
    // the caller gets the non-fatal warning signal
    let mut reg = Registry::new(Instrument::violin());
    assert_eq!(reg.instruments.len(), 1);
    let removed = reg.remove_instrument(0);
    assert!(!removed);
    assert_eq!(reg.instruments.len(), 1);
    assert_eq!(reg.current, 0);
    assert_eq!(reg.instruments[0].name, "Violin");
}

#[test]
fn preset_catalog_holds_full_instruments() {
    // every catalog entry carries its tunings, not just a name
    let reg = Registry::with_presets();
    assert_eq!(reg.instruments[0].name, "Guitar");
    assert_eq!(reg.instruments[0].tunings.len(), 11);
    assert_eq!(reg.instruments[0].tunings[0].strings, vec![4, 9, 14, 19, 23, 28]);
    assert_eq!(reg.instruments[1].name, "Violin");
    assert_eq!(reg.instruments[1].tunings[0].strings, vec![7, 14, 21, 28]);
    assert_eq!(reg.instruments[2].name, "Cello");
    assert_eq!(reg.instruments[2].tunings[0].strings, vec![0, 7, 14, 21]);
    assert_eq!(reg.instruments[3].name, "Ukulele");
    assert_eq!(reg.instruments[3].tunings[0].strings, vec![7, 12, 16, 21]);
    assert_eq!(reg.instruments[4].name, "Banjo");
    assert_eq!(reg.instruments[4].tunings[0].strings, vec![7, 14, 19, 23, 26]);
    for inst in &reg.instruments {
        assert!(inst.tunings.len() >= 1);
        assert_eq!(inst.tunings[0].name, "Standard");
        assert!(inst.tune_index < inst.tunings.len());
    }
}

#[test]
fn registry_add_and_remove_keep_the_index_in_bounds() {
    let mut reg = Registry::with_presets();
    assert_eq!(reg.instruments.len(), 5);
    assert_eq!(reg.current, 0);
    assert_eq!(reg.instrument().name, "Guitar");
    reg.add_instrument(Instrument::none());
    assert_eq!(reg.instruments.len(), 6);
    assert_eq!(reg.current, 5);
    // removing the active last entry clamps to the new last index
    assert!(reg.remove_instrument(5));
    assert_eq!(reg.instruments.len(), 5);
    assert_eq!(reg.current, 4);
    assert_eq!(reg.instrument().name, "Banjo");
    // removing an earlier entry keeps an in-bounds index unchanged
    assert!(reg.remove_instrument(0));
    assert_eq!(reg.instruments.len(), 4);
    assert_eq!(reg.current, 3);
    // out-of-range index is refused
    assert!(!reg.remove_instrument(9));
    assert_eq!(reg.instruments.len(), 4);
}

#[test]
fn strings_are_added_a_fourth_up_and_removed_by_index() {
    let mut t = Tuning::from("Test", vec![4, 9]);
    t.add_string();
    assert_eq!(t.strings, vec![4, 9, 14]);
    assert!(t.remove_string(0));
    assert_eq!(t.strings, vec![9, 14]);
    assert!(!t.remove_string(5));
    assert_eq!(t.strings, vec![9, 14]);
    assert!(t.remove_string(1));
    assert!(t.remove_string(0));
    assert_eq!(t.strings, Vec::<usize>::new());
    // the first string of an empty tuning must be added explicitly
    t.add_string();
    assert_eq!(t.strings, Vec::<usize>::new());
}

#[test]
fn active_tuning_is_selectable() {
    let mut g = Instrument::guitar();
    assert_eq!(g.tuning().name, "Standard");
    assert_eq!(g.strings(), &vec![4, 9, 14, 19, 23, 28]);
    g.tune_index = 4;
    assert_eq!(g.tuning().name, "DROP D");
    assert_eq!(g.strings(), &vec![2, 9, 14, 19, 23, 28]);
    assert_eq!(g.tuning().name(), "DROP D");
}
