use vstd::prelude::*;

verus! {

use crate::buffer::{buffer_append, empty_buffer, BufferModel, NoteSequenceBuffer};
use crate::song::{classify, slot_eq, song_from_notes, Note, Song, NUM_NOTES};

/// A command for the melody sequencer, carried out by the caller between two
/// note events; the trigger itself performs no side effect.
#[derive(Debug, Copy, Clone, PartialEq, Eq, Structural)]
pub enum SequencerCommand {
    /// Leave the sequencer as it is.
    Keep,
    /// Stop the current playback.
    Stop,
    /// Stop the current playback and start this melody.
    Play(Song),
}

/// The synthesizer and sequencer calls that one note event asks for, in the
/// order they must be issued: note-off first, then note-on, then the
/// sequencer command.
#[derive(Debug, Copy, Clone, PartialEq, Eq, Structural)]
pub struct TriggerActions {
    /// Release this note on the live-tone synthesizer.
    pub note_off: Option<Note>,
    /// Press this note on the live-tone synthesizer.
    pub note_on: Option<Note>,
    /// What the melody sequencer should do.
    pub sequencer: SequencerCommand,
}

/// Mathematical model of the trigger state.
#[verifier::ext_equal]
pub struct TriggerModel {
    /// The note currently considered pressed.
    pub held: Option<Note>,
    /// The accumulated note sequence.
    pub buffer: BufferModel,
    /// What the last classification produced.
    pub playing: Option<Song>,
}

impl TriggerModel {
    pub open spec fn wf(self) -> bool {
        self.buffer.wf()
    }
}

/// The startup state: nothing held, empty buffer, nothing playing.
pub open spec fn initial_trigger() -> TriggerModel {
    TriggerModel { held: None, buffer: empty_buffer(), playing: None }
}

/// The state after one note event. A real note is appended and classified; a
/// "no note" event only releases the held note — the accumulated buffer
/// persists until the overflow reset clears it.
pub open spec fn trigger_step(s: TriggerModel, new_note: Option<Note>) -> TriggerModel {
    match new_note {
        None => TriggerModel { held: None, buffer: s.buffer, playing: s.playing },
        Some(n) => {
            let buffer = buffer_append(s.buffer, n);
            TriggerModel { held: new_note, buffer, playing: classify(buffer.slots) }
        },
    }
}

/// The commands one note event emits. On an edge (the new note differs from
/// the held one) the held note, if any, is released and the new note, if any,
/// is pressed; a repeated note retriggers nothing. A real note always yields a
/// sequencer command: play the matched melody, or stop when nothing matches.
pub open spec fn trigger_actions(s: TriggerModel, new_note: Option<Note>) -> TriggerActions {
    TriggerActions {
        note_off: if new_note != s.held && s.held is Some {
            s.held
        } else {
            None
        },
        note_on: if new_note != s.held && new_note is Some {
            new_note
        } else {
            None
        },
        sequencer: match new_note {
            None => SequencerCommand::Keep,
            Some(n) => match classify(buffer_append(s.buffer, n).slots) {
                Some(song) => SequencerCommand::Play(song),
                None => SequencerCommand::Stop,
            },
        },
    }
}

/// Edge detector and control state: the held note, the note buffer, and the
/// melody the last classification produced.
pub struct NoteTrigger {
    held: Option<Note>,
    buffer: NoteSequenceBuffer,
    playing: Option<Song>,
}

impl View for NoteTrigger {
    type V = TriggerModel;

    closed spec fn view(&self) -> TriggerModel {
        TriggerModel { held: self.held, buffer: self.buffer@, playing: self.playing }
    }
}

impl NoteTrigger {
    pub open spec fn wf(&self) -> bool {
        self@.wf()
    }

    pub fn new() -> (r: NoteTrigger)
        ensures
            r@ == initial_trigger(),
            r.wf(),
    {
        let r = NoteTrigger { held: None, buffer: NoteSequenceBuffer::new(), playing: None };
        proof {
            assert(r@ =~= initial_trigger());
        }
        r
    }

    /// The note currently considered pressed.
    pub fn held_note(&self) -> (r: Option<Note>)
        ensures
            r == self@.held,
    {
        self.held
    }

    /// The melody the last classification matched, if any.
    pub fn playing_song(&self) -> (r: Option<Song>)
        ensures
            r == self@.playing,
    {
        self.playing
    }

    /// An immutable ordered view of the accumulated notes.
    pub fn snapshot(&self) -> (r: &[Option<Note>; NUM_NOTES])
        ensures
            r@ == self@.buffer.slots,
    {
        self.buffer.snapshot()
    }

    /// Handle one note event: emit note-off/note-on on an edge, update the
    /// held note, and for a real note append it, classify the buffer and
    /// command the sequencer accordingly.
    pub fn on_note_event(&mut self, new_note: Option<Note>) -> (actions: TriggerActions)
        requires
            old(self).wf(),
        ensures
            final(self)@ == trigger_step(old(self)@, new_note),
            final(self).wf(),
            actions == trigger_actions(old(self)@, new_note),
    {
        let edge = !slot_eq(&self.held, &new_note);
        let note_off = if edge && self.held.is_some() {
            self.held
        } else {
            None
        };
        let note_on = if edge && new_note.is_some() {
            new_note
        } else {
            None
        };
        self.held = new_note;
        let sequencer = match new_note {
            None => SequencerCommand::Keep,
            Some(n) => {
                self.buffer.append(n);
                let song = song_from_notes(self.buffer.snapshot());
                self.playing = song;
                match song {
                    Some(s) => SequencerCommand::Play(s),
                    None => SequencerCommand::Stop,
                }
            },
        };
        proof {
            assert(self@ =~= trigger_step(old(self)@, new_note));
        }
        TriggerActions { note_off, note_on, sequencer }
    }
}

/// Edge-trigger idempotence: after any event that makes `n` the held note,
/// feeding `n` again without an intervening "no note" event presses and
/// releases nothing — while the first event, if `n` was not already held,
/// presses exactly `n` and releases exactly the previously held note.
pub proof fn lemma_edge_trigger_idempotent(s: TriggerModel, n: Note)
    ensures
        trigger_actions(trigger_step(s, Some(n)), Some(n)).note_on is None,
        trigger_actions(trigger_step(s, Some(n)), Some(n)).note_off is None,
        s.held != Some(n) ==> trigger_actions(s, Some(n)).note_on == Some(n)
            && trigger_actions(s, Some(n)).note_off == s.held,
{
}

} // verus!
