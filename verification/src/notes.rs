//! The three notes a tuner shows around a detected pitch.

use vstd::prelude::*;
use crate::text::str_has_char;

verus! {

/// A pitch letter, with both enharmonic spellings of each black key.
#[derive(Debug, Clone, Copy, PartialEq, Eq)]
pub enum Letter {
    C,
    Csh,
    Db,
    D,
    Dsh,
    Eb,
    E,
    F,
    Fsh,
    Gb,
    G,
    Gsh,
    Ab,
    A,
    Ash,
    Bb,
    B,
}

/// The position of a letter within the octave, from C (0) to B (11).
pub open spec fn semitone(letter: Letter) -> int {
    match letter {
        Letter::C => 0,
        Letter::Csh | Letter::Db => 1,
        Letter::D => 2,
        Letter::Dsh | Letter::Eb => 3,
        Letter::E => 4,
        Letter::F => 5,
        Letter::Fsh | Letter::Gb => 6,
        Letter::G => 7,
        Letter::Gsh | Letter::Ab => 8,
        Letter::A => 9,
        Letter::Ash | Letter::Bb => 10,
        Letter::B => 11,
    }
}

/// The name shown for the note at position `i` (0 to 11) of the octave; black keys
/// are written as sharps.
pub open spec fn note_name(i: int) -> Seq<char> {
    if i == 0 { seq!['C'] }
    else if i == 1 { seq!['C', '#'] }
    else if i == 2 { seq!['D'] }
    else if i == 3 { seq!['D', '#'] }
    else if i == 4 { seq!['E'] }
    else if i == 5 { seq!['F'] }
    else if i == 6 { seq!['F', '#'] }
    else if i == 7 { seq!['G'] }
    else if i == 8 { seq!['G', '#'] }
    else if i == 9 { seq!['A'] }
    else if i == 10 { seq!['A', '#'] }
    else { seq!['B'] }
}

/// The note names of the octave, in order from C.
fn note_at(i: usize) -> (s: &'static str)
    requires
        i < 12,
    ensures
        s@ == note_name(i as int),
{
    proof {
        reveal_strlit("C");
        reveal_strlit("C#");
        reveal_strlit("D");
        reveal_strlit("D#");
        reveal_strlit("E");
        reveal_strlit("F");
        reveal_strlit("F#");
        reveal_strlit("G");
        reveal_strlit("G#");
        reveal_strlit("A");
        reveal_strlit("A#");
        reveal_strlit("B");
    }
    match i {
        0 => "C",
        1 => "C#",
        2 => "D",
        3 => "D#",
        4 => "E",
        5 => "F",
        6 => "F#",
        7 => "G",
        8 => "G#",
        9 => "A",
        10 => "A#",
        _ => "B",
    }
}

/// The name shown for a letter: its note name, with flats written as the
/// equivalent sharp.
pub fn letter_to_string(letter: Letter) -> (s: &'static str)
    ensures
        s@ == note_name(semitone(letter)),
{
    match letter {
        Letter::C => note_at(0),
        Letter::Csh => note_at(1),
        Letter::Db => note_at(1),
        Letter::D => note_at(2),
        Letter::Dsh => note_at(3),
        Letter::Eb => note_at(3),
        Letter::E => note_at(4),
        Letter::F => note_at(5),
        Letter::Fsh => note_at(6),
        Letter::Gb => note_at(6),
        Letter::G => note_at(7),
        Letter::Gsh => note_at(8),
        Letter::Ab => note_at(8),
        Letter::A => note_at(9),
        Letter::Ash => note_at(10),
        Letter::Bb => note_at(10),
        Letter::B => note_at(11),
    }
}


/// One of the notes shown by the tuner.
#[derive(Debug, PartialEq)]
pub struct AppNote {
    pub note: String,
    pub octave: i32,
    pub is_sharp: bool,
}

/// What the tuner shows: the detected note between its two neighbours, and how
/// far off the detected pitch is, in cents.
#[derive(Debug)]
pub struct TunerData {
    pub pitches: [AppNote; 3],
    pub cent: i32,
}

impl Clone for AppNote {
    fn clone(&self) -> (n: AppNote)
        ensures
            n == *self,
    {
        AppNote { note: self.note.clone(), octave: self.octave, is_sharp: self.is_sharp }
    }
}

impl Clone for TunerData {
    fn clone(&self) -> (d: TunerData)
        ensures
            d == *self,
    {
        let pitches = [self.pitches[0].clone(), self.pitches[1].clone(), self.pitches[2].clone()];
        assert(pitches =~= self.pitches);
        TunerData { pitches, cent: self.cent }
    }
}

impl Default for AppNote {
    fn default() -> (n: AppNote)
        ensures
            n.note@ == Seq::<char>::empty(),
            n.octave == 0,
            !n.is_sharp,
    {
        AppNote { note: String::new(), octave: 0, is_sharp: false }
    }
}

impl Default for TunerData {
    fn default() -> (d: TunerData)
        ensures
            d.cent == 0,
            forall|i: int| 0 <= i < 3 ==> (#[trigger] d.pitches@[i]).note@ == Seq::<char>::empty()
                && d.pitches@[i].octave == 0 && !d.pitches@[i].is_sharp,
    {
        TunerData { pitches: [AppNote::default(), AppNote::default(), AppNote::default()], cent: 0 }
    }
}

/// `n` shows the note that lies `k` semitones above the C of octave 0: its name,
/// its octave, and whether it is a sharp.
pub open spec fn shows_pitch(n: AppNote, k: int) -> bool {
    &&& n.note@ == note_name(k % 12)
    &&& n.octave == k / 12
    &&& n.is_sharp == note_name(k % 12).contains('#')
}

/// The position of a letter's name among the note names of the octave.
fn note_index(letter: Letter) -> (i: usize)
    ensures
        i == semitone(letter),
{
    let name = letter_to_string(letter);
    let mut i: usize = 0;
    while i < 12
        invariant
            name@ == note_name(semitone(letter)),
            0 <= semitone(letter) < 12,
            i <= semitone(letter),
        decreases 12 - i,
    {
        if crate::text::str_eq(note_at(i), name) {
            proof { lemma_note_names_distinct(i as int, semitone(letter)); }
            return i;
        }
        proof { lemma_note_names_distinct(i as int, semitone(letter)); }
        i = i + 1;
    }
    i
}

/// No two notes of the octave share a name.
pub proof fn lemma_note_names_distinct(i: int, j: int)
    requires
        0 <= i < 12,
        0 <= j < 12,
    ensures
        note_name(i) == note_name(j) <==> i == j,
{
    if i != j && note_name(i) == note_name(j) {
        assert(note_name(i).len() == note_name(j).len());
        assert(note_name(i)[0] == note_name(j)[0]);
    }
}

fn make_note(index: usize, octave: i32) -> (n: AppNote)
    requires
        index < 12,
    ensures
        n.note@ == note_name(index as int),
        n.octave == octave,
        n.is_sharp == note_name(index as int).contains('#'),
{
    let name = note_at(index);
    AppNote { note: String::from_str(name), octave, is_sharp: str_has_char(name, '#') }
}

/// The tuner's data for a detected note: the semitone below it, the note itself,
/// and the semitone above it, each with its octave, and the cent offset.
pub fn tuner_data_for_note(note: Letter, octave: i32, cent: i32) -> (d: TunerData)
    requires
        semitone(note) == 0 ==> octave > i32::MIN,
        semitone(note) == 11 ==> octave < i32::MAX,
    ensures
        d.cent == cent,
        forall|i: int|
            0 <= i < 3 ==> shows_pitch(#[trigger] d.pitches@[i], 12 * octave + semitone(note) + i - 1),
{
    let index = note_index(note);
    let (below, below_octave) = if index == 0 { (11usize, octave - 1) } else { (index - 1, octave) };
    let (above, above_octave) = if index == 11 { (0usize, octave + 1) } else { (index + 1, octave) };
    let pitches = [make_note(below, below_octave), make_note(index, octave), make_note(above, above_octave)];
    let d = TunerData { pitches, cent };
    proof {
        let k = 12 * octave + semitone(note);
        assert(k % 12 == index && k / 12 == octave);
        assert((k - 1) % 12 == below && (k - 1) / 12 == below_octave);
        assert((k + 1) % 12 == above && (k + 1) / 12 == above_octave);
        assert(shows_pitch(d.pitches@[0], k - 1));
        assert(shows_pitch(d.pitches@[1], k));
        assert(shows_pitch(d.pitches@[2], k + 1));
    }
    d
}

/// A flat is shown under the name of the sharp it sounds as: two letters of
/// the same pitch get the same name.
pub proof fn lemma_enharmonic_letters_share_name(a: Letter, b: Letter)
    requires
        semitone(a) == semitone(b),
    ensures
        note_name(semitone(a)) == note_name(semitone(b)),
{
}

/// A shown note is a sharp exactly when it is a black key of the piano.
pub proof fn lemma_sharp_iff_black_key(i: int)
    requires
        0 <= i < 12,
    ensures
        note_name(i).contains('#') <==> (i == 1 || i == 3 || i == 6 || i == 8 || i == 10),
{
    if i == 1 || i == 3 || i == 6 || i == 8 || i == 10 {
        assert(note_name(i)[1] == '#');
    } else {
        assert(note_name(i).len() == 1);
        assert(note_name(i)[0] != '#');
    }
}

/// A shown note, name and octave, tells which pitch it stands for: no two
/// pitches are shown alike.
pub proof fn lemma_shown_pitch_is_unambiguous(n: AppNote, k1: int, k2: int)
    requires
        shows_pitch(n, k1),
        shows_pitch(n, k2),
    ensures
        k1 == k2,
{
    lemma_note_names_distinct(k1 % 12, k2 % 12);
}

/// The three shown notes are consecutive semitones: the left one is one
/// semitone below the middle one, the right one one above, across octaves.
pub proof fn lemma_neighbours_are_adjacent(d: TunerData, k: int)
    requires
        forall|i: int| 0 <= i < 3 ==> shows_pitch(#[trigger] d.pitches@[i], k + i - 1),
    ensures
        12 * d.pitches@[0].octave + (k - 1) % 12 == 12 * d.pitches@[1].octave + k % 12 - 1,
        12 * d.pitches@[2].octave + (k + 1) % 12 == 12 * d.pitches@[1].octave + k % 12 + 1,
{
    assert(shows_pitch(d.pitches@[0], k - 1));
    assert(shows_pitch(d.pitches@[1], k));
    assert(shows_pitch(d.pitches@[2], k + 1));
}

/// The natural letters lie a whole tone apart, except E to F and B to the next
/// C, a semitone; a sharp lies a semitone above its letter, a flat a semitone
/// below; C starts the octave.
pub proof fn lemma_letters_follow_the_scale()
    ensures
        semitone(Letter::C) == 0,
        semitone(Letter::D) == semitone(Letter::C) + 2,
        semitone(Letter::E) == semitone(Letter::D) + 2,
        semitone(Letter::F) == semitone(Letter::E) + 1,
        semitone(Letter::G) == semitone(Letter::F) + 2,
        semitone(Letter::A) == semitone(Letter::G) + 2,
        semitone(Letter::B) == semitone(Letter::A) + 2,
        semitone(Letter::B) + 1 == 12,
        semitone(Letter::Csh) == semitone(Letter::C) + 1,
        semitone(Letter::Dsh) == semitone(Letter::D) + 1,
        semitone(Letter::Fsh) == semitone(Letter::F) + 1,
        semitone(Letter::Gsh) == semitone(Letter::G) + 1,
        semitone(Letter::Ash) == semitone(Letter::A) + 1,
        semitone(Letter::Db) == semitone(Letter::D) - 1,
        semitone(Letter::Eb) == semitone(Letter::E) - 1,
        semitone(Letter::Gb) == semitone(Letter::G) - 1,
        semitone(Letter::Ab) == semitone(Letter::A) - 1,
        semitone(Letter::Bb) == semitone(Letter::B) - 1,
{
}

/// A natural letter is shown as its own capital; a black key as the natural
/// letter a semitone below it followed by `#`.
pub proof fn lemma_names_spell_the_letters()
    ensures
        note_name(semitone(Letter::C)) == seq!['C'],
        note_name(semitone(Letter::D)) == seq!['D'],
        note_name(semitone(Letter::E)) == seq!['E'],
        note_name(semitone(Letter::F)) == seq!['F'],
        note_name(semitone(Letter::G)) == seq!['G'],
        note_name(semitone(Letter::A)) == seq!['A'],
        note_name(semitone(Letter::B)) == seq!['B'],
        forall|i: int| 0 <= i < 12 && (i == 1 || i == 3 || i == 6 || i == 8 || i == 10)
            ==> #[trigger] note_name(i) == note_name(i - 1).push('#'),
{
    assert forall|i: int| 0 <= i < 12 && (i == 1 || i == 3 || i == 6 || i == 8 || i == 10)
        implies #[trigger] note_name(i) == note_name(i - 1).push('#') by {
        assert(note_name(i) =~= note_name(i - 1).push('#'));
    }
}

/// The note shown for a letter in an octave carries that octave and the
/// letter's name; the one a semitone below C is B of the octave below, the one
/// a semitone above B is C of the octave above.
pub proof fn lemma_shown_note_names_letter_and_octave(n: AppNote, letter: Letter, octave: int)
    ensures
        shows_pitch(n, 12 * octave + semitone(letter)) ==> n.octave == octave && n.note@ == note_name(semitone(letter)),
        shows_pitch(n, 12 * octave - 1) ==> n.octave == octave - 1 && n.note@ == seq!['B'],
        shows_pitch(n, 12 * octave + 12) ==> n.octave == octave + 1 && n.note@ == seq!['C'],
{
}

} // verus!
