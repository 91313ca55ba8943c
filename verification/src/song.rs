use vstd::prelude::*;

verus! {

/// Capacity of the note buffer: every catalog pattern is padded to this length.
pub const NUM_NOTES: usize = 8;

/// The five playable note symbols.
#[derive(Debug, Copy, Clone, PartialEq, Eq, Structural)]
pub enum Note {
    A,
    Down,
    Right,
    Left,
    Up,
}

/// The pitch identifier each note maps to, in a 12-tone MIDI-like numbering.
pub open spec fn spec_midi_key(n: Note) -> i32 {
    match n {
        Note::A => 62,
        Note::Down => 65,
        Note::Right => 69,
        Note::Left => 71,
        Note::Up => 74,
    }
}

/// The glyph each note is displayed as.
pub open spec fn spec_symbol(n: Note) -> Seq<char> {
    match n {
        Note::A => "A"@,
        Note::Down => "▼"@,
        Note::Right => "▶"@,
        Note::Left => "◀"@,
        Note::Up => "▲"@,
    }
}

impl Note {
    pub fn midi_key(&self) -> (r: i32)
        ensures
            r == spec_midi_key(*self),
    {
        match self {
            Note::A => 62,
            Note::Down => 65,
            Note::Right => 69,
            Note::Left => 71,
            Note::Up => 74,
        }
    }

    pub fn symbol(&self) -> (r: &'static str)
        ensures
            r@ == spec_symbol(*self),
    {
        match self {
            Note::A => "A",
            Note::Down => "▼",
            Note::Right => "▶",
            Note::Left => "◀",
            Note::Up => "▲",
        }
    }
}

/// The twelve melodies the catalog can recognize.
#[derive(Debug, Copy, Clone, PartialEq, Eq, Structural)]
pub enum Song {
    BoleroOfFire,
    EponasSong,
    MinuetOfForest,
    NocturneOfShadow,
    PreludeOfLight,
    RequiemOfSpirit,
    SariasSong,
    SerenadeOfWater,
    SongOfStorms,
    SongOfTime,
    SunsSong,
    ZeldasLullaby,
}

/// The display name of each melody.
pub open spec fn spec_name(s: Song) -> Seq<char> {
    match s {
        Song::BoleroOfFire => "Bolero Of Fire"@,
        Song::EponasSong => "Eponas Song"@,
        Song::MinuetOfForest => "Minuet of Forest"@,
        Song::NocturneOfShadow => "Nocturne of Shadow"@,
        Song::PreludeOfLight => "Prelude of Light"@,
        Song::RequiemOfSpirit => "Requiem of Spirit"@,
        Song::SariasSong => "Sarias Song"@,
        Song::SerenadeOfWater => "Serenade of Water"@,
        Song::SongOfStorms => "Song of Storms"@,
        Song::SongOfTime => "Song of Time"@,
        Song::SunsSong => "Sun's Song"@,
        Song::ZeldasLullaby => "Zelda's Lullaby"@,
    }
}

impl Song {
    pub fn name(&self) -> (r: &'static str)
        ensures
            r@ == spec_name(*self),
    {
        match self {
            Song::BoleroOfFire => "Bolero Of Fire",
            Song::EponasSong => "Eponas Song",
            Song::MinuetOfForest => "Minuet of Forest",
            Song::NocturneOfShadow => "Nocturne of Shadow",
            Song::PreludeOfLight => "Prelude of Light",
            Song::RequiemOfSpirit => "Requiem of Spirit",
            Song::SariasSong => "Sarias Song",
            Song::SerenadeOfWater => "Serenade of Water",
            Song::SongOfStorms => "Song of Storms",
            Song::SongOfTime => "Song of Time",
            Song::SunsSong => "Sun's Song",
            Song::ZeldasLullaby => "Zelda's Lullaby",
        }
    }
}

pub open spec fn pattern_zeldas_lullaby() -> Seq<Option<Note>> {
    seq![
        Some(Note::Left),
        Some(Note::Up),
        Some(Note::Right),
        Some(Note::Left),
        Some(Note::Up),
        Some(Note::Right),
        None,
        None,
    ]
}

pub open spec fn pattern_eponas_song() -> Seq<Option<Note>> {
    seq![
        Some(Note::Up),
        Some(Note::Left),
        Some(Note::Right),
        Some(Note::Up),
        Some(Note::Left),
        Some(Note::Right),
        None,
        None,
    ]
}

pub open spec fn pattern_sarias_song() -> Seq<Option<Note>> {
    seq![
        Some(Note::Down),
        Some(Note::Right),
        Some(Note::Left),
        Some(Note::Down),
        Some(Note::Right),
        Some(Note::Left),
        None,
        None,
    ]
}

pub open spec fn pattern_suns_song() -> Seq<Option<Note>> {
    seq![
        Some(Note::Right),
        Some(Note::Down),
        Some(Note::Up),
        Some(Note::Right),
        Some(Note::Down),
        Some(Note::Up),
        None,
        None,
    ]
}

pub open spec fn pattern_song_of_time() -> Seq<Option<Note>> {
    seq![
        Some(Note::Right),
        Some(Note::A),
        Some(Note::Down),
        Some(Note::Right),
        Some(Note::A),
        Some(Note::Down),
        None,
        None,
    ]
}

pub open spec fn pattern_song_of_storms() -> Seq<Option<Note>> {
    seq![
        Some(Note::A),
        Some(Note::Down),
        Some(Note::Up),
        Some(Note::A),
        Some(Note::Down),
        Some(Note::Up),
        None,
        None,
    ]
}

pub open spec fn pattern_minuet_of_forest() -> Seq<Option<Note>> {
    seq![
        Some(Note::A),
        Some(Note::Up),
        Some(Note::Left),
        Some(Note::Right),
        Some(Note::Left),
        Some(Note::Right),
        None,
        None,
    ]
}

pub open spec fn pattern_bolero_of_fire() -> Seq<Option<Note>> {
    seq![
        Some(Note::Down),
        Some(Note::A),
        Some(Note::Down),
        Some(Note::A),
        Some(Note::Right),
        Some(Note::Down),
        Some(Note::Right),
        Some(Note::Down),
    ]
}

pub open spec fn pattern_serenade_of_water() -> Seq<Option<Note>> {
    seq![
        Some(Note::A),
        Some(Note::Down),
        Some(Note::Right),
        Some(Note::Right),
        Some(Note::Left),
        None,
        None,
        None,
    ]
}

pub open spec fn pattern_nocturne_of_shadow() -> Seq<Option<Note>> {
    seq![
        Some(Note::Left),
        Some(Note::Right),
        Some(Note::Right),
        Some(Note::A),
        Some(Note::Left),
        Some(Note::Right),
        Some(Note::Down),
        None,
    ]
}

pub open spec fn pattern_requiem_of_spirit() -> Seq<Option<Note>> {
    seq![
        Some(Note::A),
        Some(Note::Down),
        Some(Note::A),
        Some(Note::Right),
        Some(Note::Down),
        Some(Note::A),
        None,
        None,
    ]
}

pub open spec fn pattern_prelude_of_light() -> Seq<Option<Note>> {
    seq![
        Some(Note::Up),
        Some(Note::Right),
        Some(Note::Up),
        Some(Note::Right),
        Some(Note::Left),
        Some(Note::Up),
        None,
        None,
    ]
}

/// The recognition table: one 8-slot pattern per melody, in lookup order.
/// Patterns are disjoint by construction; were two entries ever equal, the
/// earlier one would win.
pub open spec fn catalog() -> Seq<(Seq<Option<Note>>, Song)> {
    seq![
        (pattern_zeldas_lullaby(), Song::ZeldasLullaby),
        (pattern_eponas_song(), Song::EponasSong),
        (pattern_sarias_song(), Song::SariasSong),
        (pattern_suns_song(), Song::SunsSong),
        (pattern_song_of_time(), Song::SongOfTime),
        (pattern_song_of_storms(), Song::SongOfStorms),
        (pattern_minuet_of_forest(), Song::MinuetOfForest),
        (pattern_bolero_of_fire(), Song::BoleroOfFire),
        (pattern_serenade_of_water(), Song::SerenadeOfWater),
        (pattern_nocturne_of_shadow(), Song::NocturneOfShadow),
        (pattern_requiem_of_spirit(), Song::RequiemOfSpirit),
        (pattern_prelude_of_light(), Song::PreludeOfLight),
    ]
}

/// The first catalog entry at or after position `i` whose pattern equals
/// `slots`, or `None` when none matches.
pub open spec fn classify_from(slots: Seq<Option<Note>>, i: int) -> Option<Song>
    decreases catalog().len() - i,
{
    if i < 0 || i >= catalog().len() {
        None::<Song>
    } else if slots == catalog()[i].0 {
        Some(catalog()[i].1)
    } else {
        classify_from(slots, i + 1)
    }
}

/// Classification of a buffer: the first matching catalog entry, or `None`
/// for every pattern outside the catalog (the all-empty buffer included).
pub open spec fn classify(slots: Seq<Option<Note>>) -> Option<Song> {
    classify_from(slots, 0)
}

/// Slot comparison; a slot is a note or empty.
pub(crate) fn slot_eq(a: &Option<Note>, b: &Option<Note>) -> (r: bool)
    ensures
        r == (*a == *b),
{
    match (a, b) {
        (Option::None, Option::None) => true,
        (Option::Some(x), Option::Some(y)) => *x == *y,
        _ => false,
    }
}

/// Exact slot-by-slot comparison of two 8-slot buffers.
fn buffers_equal(a: &[Option<Note>; NUM_NOTES], b: &[Option<Note>; NUM_NOTES]) -> (r: bool)
    ensures
        r == (a@ == b@),
{
    let mut i: usize = 0;
    while i < NUM_NOTES
        invariant
            i <= NUM_NOTES,
            forall|j: int| 0 <= j < i ==> a@[j] == b@[j],
        decreases NUM_NOTES - i,
    {
        if !slot_eq(&a[i], &b[i]) {
            assert(a@[i as int] != b@[i as int]);
            return false;
        }
        i += 1;
    }
    proof {
        assert(a@ =~= b@);
    }
    true
}

/// The catalog as runtime data: entry `i` of the recognition table.
fn catalog_entry(i: usize) -> (r: ([Option<Note>; NUM_NOTES], Song))
    requires
        i < 12,
    ensures
        r.0@ == catalog()[i as int].0,
        r.1 == catalog()[i as int].1,
{
    match i {
        0 => {
            let p = [
                Some(Note::Left),
                Some(Note::Up),
                Some(Note::Right),
                Some(Note::Left),
                Some(Note::Up),
                Some(Note::Right),
                None,
                None,
            ];
            proof {
                assert(p@ =~= pattern_zeldas_lullaby());
            }
            (p, Song::ZeldasLullaby)
        },
        1 => {
            let p = [
                Some(Note::Up),
                Some(Note::Left),
                Some(Note::Right),
                Some(Note::Up),
                Some(Note::Left),
                Some(Note::Right),
                None,
                None,
            ];
            proof {
                assert(p@ =~= pattern_eponas_song());
            }
            (p, Song::EponasSong)
        },
        2 => {
            let p = [
                Some(Note::Down),
                Some(Note::Right),
                Some(Note::Left),
                Some(Note::Down),
                Some(Note::Right),
                Some(Note::Left),
                None,
                None,
            ];
            proof {
                assert(p@ =~= pattern_sarias_song());
            }
            (p, Song::SariasSong)
        },
        3 => {
            let p = [
                Some(Note::Right),
                Some(Note::Down),
                Some(Note::Up),
                Some(Note::Right),
                Some(Note::Down),
                Some(Note::Up),
                None,
                None,
            ];
            proof {
                assert(p@ =~= pattern_suns_song());
            }
            (p, Song::SunsSong)
        },
        4 => {
            let p = [
                Some(Note::Right),
                Some(Note::A),
                Some(Note::Down),
                Some(Note::Right),
                Some(Note::A),
                Some(Note::Down),
                None,
                None,
            ];
            proof {
                assert(p@ =~= pattern_song_of_time());
            }
            (p, Song::SongOfTime)
        },
        5 => {
            let p = [
                Some(Note::A),
                Some(Note::Down),
                Some(Note::Up),
                Some(Note::A),
                Some(Note::Down),
                Some(Note::Up),
                None,
                None,
            ];
            proof {
                assert(p@ =~= pattern_song_of_storms());
            }
            (p, Song::SongOfStorms)
        },
        6 => {
            let p = [
                Some(Note::A),
                Some(Note::Up),
                Some(Note::Left),
                Some(Note::Right),
                Some(Note::Left),
                Some(Note::Right),
                None,
                None,
            ];
            proof {
                assert(p@ =~= pattern_minuet_of_forest());
            }
            (p, Song::MinuetOfForest)
        },
        7 => {
            let p = [
                Some(Note::Down),
                Some(Note::A),
                Some(Note::Down),
                Some(Note::A),
                Some(Note::Right),
                Some(Note::Down),
                Some(Note::Right),
                Some(Note::Down),
            ];
            proof {
                assert(p@ =~= pattern_bolero_of_fire());
            }
            (p, Song::BoleroOfFire)
        },
        8 => {
            let p = [
                Some(Note::A),
                Some(Note::Down),
                Some(Note::Right),
                Some(Note::Right),
                Some(Note::Left),
                None,
                None,
                None,
            ];
            proof {
                assert(p@ =~= pattern_serenade_of_water());
            }
            (p, Song::SerenadeOfWater)
        },
        9 => {
            let p = [
                Some(Note::Left),
                Some(Note::Right),
                Some(Note::Right),
                Some(Note::A),
                Some(Note::Left),
                Some(Note::Right),
                Some(Note::Down),
                None,
            ];
            proof {
                assert(p@ =~= pattern_nocturne_of_shadow());
            }
            (p, Song::NocturneOfShadow)
        },
        10 => {
            let p = [
                Some(Note::A),
                Some(Note::Down),
                Some(Note::A),
                Some(Note::Right),
                Some(Note::Down),
                Some(Note::A),
                None,
                None,
            ];
            proof {
                assert(p@ =~= pattern_requiem_of_spirit());
            }
            (p, Song::RequiemOfSpirit)
        },
        _ => {
            let p = [
                Some(Note::Up),
                Some(Note::Right),
                Some(Note::Up),
                Some(Note::Right),
                Some(Note::Left),
                Some(Note::Up),
                None,
                None,
            ];
            proof {
                assert(p@ =~= pattern_prelude_of_light());
            }
            (p, Song::PreludeOfLight)
        },
    }
}

/// Exact-match lookup of a buffer against the recognition table, first entry
/// in table order winning. Total: defined for every buffer content, and pure,
/// pinned to `classify`.
pub fn song_from_notes(notes: &[Option<Note>; NUM_NOTES]) -> (r: Option<Song>)
    ensures
        r == classify(notes@),
{
    let mut i: usize = 0;
    while i < 12
        invariant
            i <= 12,
            classify(notes@) == classify_from(notes@, i as int),
        decreases 12 - i,
    {
        let (pattern, song) = catalog_entry(i);
        if buffers_equal(notes, &pattern) {
            assert(classify_from(notes@, i as int) == Some(song));
            return Some(song);
        }
        assert(classify_from(notes@, i as int) == classify_from(notes@, i + 1));
        i += 1;
    }
    assert(classify_from(notes@, 12) is None);
    None
}

/// Every catalog pattern has a note in its second slot, so any buffer whose
/// second slot is empty matches no catalog entry.
pub proof fn lemma_second_slot_empty_no_match(s: Seq<Option<Note>>)
    requires
        s[1] is None,
    ensures
        classify(s) is None,
{
    assert(classify_from(s, 0) == classify_from(s, 1));
    assert(classify_from(s, 1) == classify_from(s, 2));
    assert(classify_from(s, 2) == classify_from(s, 3));
    assert(classify_from(s, 3) == classify_from(s, 4));
    assert(classify_from(s, 4) == classify_from(s, 5));
    assert(classify_from(s, 5) == classify_from(s, 6));
    assert(classify_from(s, 6) == classify_from(s, 7));
    assert(classify_from(s, 7) == classify_from(s, 8));
    assert(classify_from(s, 8) == classify_from(s, 9));
    assert(classify_from(s, 9) == classify_from(s, 10));
    assert(classify_from(s, 10) == classify_from(s, 11));
    assert(classify_from(s, 11) == classify_from(s, 12));
    assert(classify_from(s, 12) is None);
}

/// The all-empty buffer classifies as "none".
pub proof fn lemma_empty_no_match()
    ensures
        classify(Seq::new(NUM_NOTES as nat, |i: int| None::<Note>)) is None,
{
    lemma_second_slot_empty_no_match(Seq::new(NUM_NOTES as nat, |i: int| None::<Note>));
}

/// A buffer holding a single note, whichever it is, matches no catalog entry.
pub proof fn lemma_single_note_no_match(n: Note)
    ensures
        classify(Seq::new(NUM_NOTES as nat, |i: int| None::<Note>).update(0, Some(n))) is None,
{
    lemma_second_slot_empty_no_match(
        Seq::new(NUM_NOTES as nat, |i: int| None::<Note>).update(0, Some(n)),
    );
}

} // verus!
