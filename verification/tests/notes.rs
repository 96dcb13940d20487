use clatune::notes::{letter_to_string, tuner_data_for_note, AppNote, Letter, TunerData};

fn shown(d: &TunerData) -> Vec<(String, i32, bool)> {
    d.pitches.iter().map(|p| (p.note.clone(), p.octave, p.is_sharp)).collect()
}

fn n(name: &str, octave: i32, sharp: bool) -> (String, i32, bool) {
    (name.to_string(), octave, sharp)
}

#[test]
fn every_letter_has_its_sharp_name() {
    let expected = [
        (Letter::C, "C"),
        (Letter::Csh, "C#"),
        (Letter::Db, "C#"),
        (Letter::D, "D"),
        (Letter::Dsh, "D#"),
        (Letter::Eb, "D#"),
        (Letter::E, "E"),
        (Letter::F, "F"),
        (Letter::Fsh, "F#"),
        (Letter::Gb, "F#"),
        (Letter::G, "G"),
        (Letter::Gsh, "G#"),
        (Letter::Ab, "G#"),
        (Letter::A, "A"),
        (Letter::Ash, "A#"),
        (Letter::Bb, "A#"),
        (Letter::B, "B"),
    ];
    for (letter, name) in expected {
        assert_eq!(letter_to_string(letter), name);
    }
}

#[test]
fn enharmonic_letters_show_the_same_name() {
    assert_eq!(letter_to_string(Letter::Db), letter_to_string(Letter::Csh));
    assert_eq!(letter_to_string(Letter::Gb), letter_to_string(Letter::Fsh));
    assert_eq!(letter_to_string(Letter::Bb), letter_to_string(Letter::Ash));
}

#[test]
fn a4_sits_between_g_sharp_and_a_sharp() {
    let d = tuner_data_for_note(Letter::A, 4, 3);
    assert_eq!(d.cent, 3);
    assert_eq!(shown(&d), vec![n("G#", 4, true), n("A", 4, false), n("A#", 4, true)]);
}

#[test]
fn c_borrows_b_from_the_octave_below() {
    let d = tuner_data_for_note(Letter::C, 4, -10);
    assert_eq!(d.cent, -10);
    assert_eq!(shown(&d), vec![n("B", 3, false), n("C", 4, false), n("C#", 4, true)]);
}

#[test]
fn b_borrows_c_from_the_octave_above() {
    let d = tuner_data_for_note(Letter::B, 3, 0);
    assert_eq!(shown(&d), vec![n("A#", 3, true), n("B", 3, false), n("C", 4, false)]);
}

#[test]
fn flats_are_shown_as_sharps_with_their_neighbours() {
    let d = tuner_data_for_note(Letter::Eb, 2, 49);
    assert_eq!(shown(&d), vec![n("D", 2, false), n("D#", 2, true), n("E", 2, false)]);
    let d = tuner_data_for_note(Letter::Gb, -1, -49);
    assert_eq!(shown(&d), vec![n("F", -1, false), n("F#", -1, true), n("G", -1, false)]);
}

#[test]
fn octave_wraps_below_zero() {
    let d = tuner_data_for_note(Letter::C, 0, 0);
    assert_eq!(shown(&d), vec![n("B", -1, false), n("C", 0, false), n("C#", 0, true)]);
}

#[test]
fn extreme_octaves_that_need_no_neighbour_octave() {
    let d = tuner_data_for_note(Letter::D, i32::MIN, 0);
    assert_eq!(d.pitches[0].octave, i32::MIN);
    let d = tuner_data_for_note(Letter::A, i32::MAX, 0);
    assert_eq!(d.pitches[2].octave, i32::MAX);
}

#[test]
fn sharp_flag_marks_black_keys() {
    let mut sharps = Vec::new();
    for (letter, octave) in [
        (Letter::C, 4),
        (Letter::D, 4),
        (Letter::E, 4),
        (Letter::F, 4),
        (Letter::G, 4),
        (Letter::A, 4),
        (Letter::B, 4),
    ] {
        let d = tuner_data_for_note(letter, octave, 0);
        sharps.push(d.pitches[2].is_sharp);
    }
    assert_eq!(sharps, vec![true, true, false, true, true, true, false]);
}

#[test]
fn neighbours_are_one_semitone_apart() {
    let names = ["C", "C#", "D", "D#", "E", "F", "F#", "G", "G#", "A", "A#", "B"];
    let number = |p: &AppNote| 12 * p.octave + names.iter().position(|x| *x == p.note).unwrap() as i32;
    for (letter, octave) in [(Letter::C, 3), (Letter::B, 3), (Letter::Fsh, 5), (Letter::A, -2)] {
        let d = tuner_data_for_note(letter, octave, 0);
        assert_eq!(number(&d.pitches[0]) + 1, number(&d.pitches[1]));
        assert_eq!(number(&d.pitches[1]) + 1, number(&d.pitches[2]));
    }
}

#[test]
fn shown_pitches_differ_for_different_notes() {
    let a = tuner_data_for_note(Letter::A, 4, 0);
    let b = tuner_data_for_note(Letter::A, 3, 0);
    assert_ne!(a.pitches[1], b.pitches[1]);
    assert_eq!(a.pitches[0], tuner_data_for_note(Letter::Ab, 4, 0).pitches[1]);
}

#[test]
fn default_tuner_data_is_blank() {
    let d = TunerData::default();
    assert_eq!(d.cent, 0);
    for p in d.pitches.iter() {
        assert_eq!(p, &AppNote::default());
        assert_eq!(p.note, "");
    }
}
