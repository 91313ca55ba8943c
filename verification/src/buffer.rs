use vstd::prelude::*;

verus! {

use crate::song::{Note, NUM_NOTES};

/// Mathematical model of the note buffer: the slot contents and the write
/// cursor.
#[verifier::ext_equal]
pub struct BufferModel {
    pub slots: Seq<Option<Note>>,
    pub cursor: int,
}

impl BufferModel {
    /// Well-formed: exactly `NUM_NOTES` slots, the cursor within bounds, a
    /// note in every slot before the cursor and nothing at or beyond it.
    pub open spec fn wf(self) -> bool {
        &&& self.slots.len() == NUM_NOTES
        &&& 0 <= self.cursor <= NUM_NOTES
        &&& forall|i: int| 0 <= i < self.cursor ==> self.slots[i] is Some
        &&& forall|i: int| self.cursor <= i < NUM_NOTES ==> self.slots[i] is None
    }
}

/// The all-empty buffer.
pub open spec fn empty_buffer() -> BufferModel {
    BufferModel { slots: Seq::new(NUM_NOTES as nat, |i: int| None::<Note>), cursor: 0 }
}

/// One append: when the buffer is full the append first resets it, then the
/// note is written at the cursor and the cursor advances.
pub open spec fn buffer_append(b: BufferModel, n: Note) -> BufferModel {
    let base = if b.cursor >= NUM_NOTES { empty_buffer() } else { b };
    BufferModel { slots: base.slots.update(base.cursor, Some(n)), cursor: base.cursor + 1 }
}

/// Fixed-capacity ordered note buffer plus write cursor. Appending never
/// fails: a full buffer resets itself before the next write.
pub struct NoteSequenceBuffer {
    slots: [Option<Note>; NUM_NOTES],
    cursor: usize,
}

impl View for NoteSequenceBuffer {
    type V = BufferModel;

    closed spec fn view(&self) -> BufferModel {
        BufferModel { slots: self.slots@, cursor: self.cursor as int }
    }
}

impl NoteSequenceBuffer {
    pub open spec fn wf(&self) -> bool {
        self@.wf()
    }

    pub fn new() -> (r: NoteSequenceBuffer)
        ensures
            r@ == empty_buffer(),
            r.wf(),
    {
        let r = NoteSequenceBuffer { slots: [None; NUM_NOTES], cursor: 0 };
        proof {
            assert(r@.slots =~= empty_buffer().slots);
            assert(r@ =~= empty_buffer());
        }
        r
    }

    /// Clear all slots and return the cursor to the start.
    pub fn reset(&mut self)
        ensures
            final(self)@ == empty_buffer(),
            final(self).wf(),
    {
        self.slots = [None; NUM_NOTES];
        self.cursor = 0;
        proof {
            assert(self@.slots =~= empty_buffer().slots);
            assert(self@ =~= empty_buffer());
        }
    }

    /// Write `note` at the cursor and advance it, resetting first when the
    /// buffer is full. Total: there is no overflow error, only the
    /// wraparound-by-reset.
    pub fn append(&mut self, note: Note)
        requires
            old(self).wf(),
        ensures
            final(self)@ == buffer_append(old(self)@, note),
            final(self).wf(),
    {
        if self.cursor >= NUM_NOTES {
            self.reset();
        }
        self.slots[self.cursor] = Some(note);
        self.cursor = self.cursor + 1;
        proof {
            assert(self@ =~= buffer_append(old(self)@, note));
        }
    }

    /// An immutable ordered view of the slots, for classification.
    pub fn snapshot(&self) -> (r: &[Option<Note>; NUM_NOTES])
        ensures
            r@ == self@.slots,
    {
        &self.slots
    }

    /// The write cursor: the number of notes accumulated since the last reset.
    pub fn cursor(&self) -> (r: usize)
        ensures
            r == self@.cursor,
    {
        self.cursor
    }
}

/// The buffer after appending each note of `notes` in order.
pub open spec fn buffer_append_all(b: BufferModel, notes: Seq<Note>) -> BufferModel
    decreases notes.len(),
{
    if notes.len() <= 0 {
        b
    } else {
        buffer_append_all(buffer_append(b, notes[0]), notes.drop_first())
    }
}

/// Appending distributes over adding one note at the end.
pub proof fn lemma_append_all_snoc(b: BufferModel, notes: Seq<Note>, n: Note)
    ensures
        buffer_append_all(b, notes.push(n)) == buffer_append(buffer_append_all(b, notes), n),
    decreases notes.len(),
{
    let snoc = notes.push(n);
    if notes.len() == 0 {
        assert(snoc[0] == n);
        assert(snoc.drop_first() =~= Seq::<Note>::empty());
        assert(buffer_append_all(b, snoc) == buffer_append_all(
            buffer_append(b, n),
            Seq::<Note>::empty(),
        ));
        assert(buffer_append_all(buffer_append(b, n), Seq::<Note>::empty()) == buffer_append(
            b,
            n,
        ));
        assert(buffer_append_all(b, notes) == b);
    } else {
        assert(snoc[0] == notes[0]);
        assert(snoc.drop_first() =~= notes.drop_first().push(n));
        lemma_append_all_snoc(buffer_append(b, notes[0]), notes.drop_first(), n);
        assert(buffer_append_all(b, snoc) == buffer_append_all(
            buffer_append(b, notes[0]),
            snoc.drop_first(),
        ));
        assert(buffer_append_all(b, notes) == buffer_append_all(
            buffer_append(b, notes[0]),
            notes.drop_first(),
        ));
    }
}

/// An append keeps the buffer well formed.
pub proof fn lemma_append_preserves_wf(b: BufferModel, n: Note)
    requires
        b.wf(),
    ensures
        buffer_append(b, n).wf(),
        b.cursor < NUM_NOTES ==> buffer_append(b, n).cursor == b.cursor + 1,
        b.cursor == NUM_NOTES ==> buffer_append(b, n).cursor == 1,
{
}

/// Filling an empty buffer with up to `NUM_NOTES` notes advances the cursor
/// once per note, with no reset.
pub proof fn lemma_fill_cursor(notes: Seq<Note>)
    requires
        notes.len() <= NUM_NOTES,
    ensures
        buffer_append_all(empty_buffer(), notes).wf(),
        buffer_append_all(empty_buffer(), notes).cursor == notes.len(),
    decreases notes.len(),
{
    if notes.len() == 0 {
    } else {
        let prefix = notes.drop_last();
        lemma_fill_cursor(prefix);
        lemma_append_all_snoc(empty_buffer(), prefix, notes.last());
        assert(prefix.push(notes.last()) =~= notes);
        lemma_append_preserves_wf(buffer_append_all(empty_buffer(), prefix), notes.last());
    }
}

/// Overflow safety: appending nine notes in a row to an empty buffer causes
/// exactly one reset. The first eight fill the buffer; the ninth finds it
/// full, resets it before writing, and lands in slot 0 — so the cursor ends
/// at 1, not 0, and nothing is ever written out of range.
pub proof fn lemma_nine_appends_reset_once(notes: Seq<Note>)
    requires
        notes.len() == 9,
    ensures
        buffer_append_all(empty_buffer(), notes.take(8)).cursor == NUM_NOTES,
        buffer_append_all(empty_buffer(), notes).cursor == 1,
        buffer_append_all(empty_buffer(), notes).slots[0] == Some(notes[8]),
        buffer_append_all(empty_buffer(), notes).wf(),
{
    let first8 = notes.take(8);
    lemma_fill_cursor(first8);
    lemma_append_all_snoc(empty_buffer(), first8, notes[8]);
    assert(first8.push(notes[8]) =~= notes);
    lemma_append_preserves_wf(buffer_append_all(empty_buffer(), first8), notes[8]);
}

} // verus!
