use ocarina_tui::buffer::NoteSequenceBuffer;
use ocarina_tui::codec::{is_quit_key, note_from_key, KeyPress};
use ocarina_tui::song::{Note, Song, NUM_NOTES};
use ocarina_tui::trigger::{NoteTrigger, SequencerCommand};

use Note::{Down, Left, Right, Up, A};

#[test]
fn buffer_starts_empty() {
    let buf = NoteSequenceBuffer::new();
    assert_eq!(buf.cursor(), 0);
    assert_eq!(*buf.snapshot(), [None; NUM_NOTES]);
}

#[test]
fn buffer_append_advances_cursor() {
    let mut buf = NoteSequenceBuffer::new();
    buf.append(A);
    buf.append(Up);
    assert_eq!(buf.cursor(), 2);
    let snap = buf.snapshot();
    assert_eq!(snap[0], Some(A));
    assert_eq!(snap[1], Some(Up));
    assert_eq!(snap[2], None);
}

#[test]
fn buffer_reset_clears_everything() {
    let mut buf = NoteSequenceBuffer::new();
    buf.append(Down);
    buf.append(Left);
    buf.reset();
    assert_eq!(buf.cursor(), 0);
    assert_eq!(*buf.snapshot(), [None; NUM_NOTES]);
}

#[test]
fn nine_appends_reset_once() {
    // Eight appends fill the buffer; the ninth resets it before writing, so
    // the cursor returns to 1 (not 0) and the ninth note sits in slot 0.
    let mut buf = NoteSequenceBuffer::new();
    for _ in 0..8 {
        buf.append(A);
    }
    assert_eq!(buf.cursor(), NUM_NOTES);
    buf.append(Up);
    assert_eq!(buf.cursor(), 1);
    let snap = buf.snapshot();
    assert_eq!(snap[0], Some(Up));
    for i in 1..NUM_NOTES {
        assert_eq!(snap[i], None);
    }
}

#[test]
fn edge_trigger_fires_once_per_edge() {
    let mut trigger = NoteTrigger::new();
    let first = trigger.on_note_event(Some(A));
    assert_eq!(first.note_off, None);
    assert_eq!(first.note_on, Some(A));
    // The same note again, with no intervening "no note" event: no retrigger.
    let second = trigger.on_note_event(Some(A));
    assert_eq!(second.note_off, None);
    assert_eq!(second.note_on, None);
}

#[test]
fn edge_trigger_switches_notes() {
    let mut trigger = NoteTrigger::new();
    trigger.on_note_event(Some(A));
    let actions = trigger.on_note_event(Some(Down));
    assert_eq!(actions.note_off, Some(A));
    assert_eq!(actions.note_on, Some(Down));
}

#[test]
fn release_emits_single_note_off() {
    let mut trigger = NoteTrigger::new();
    trigger.on_note_event(Some(Left));
    let release = trigger.on_note_event(None);
    assert_eq!(release.note_off, Some(Left));
    assert_eq!(release.note_on, None);
    assert_eq!(release.sequencer, SequencerCommand::Keep);
    assert_eq!(trigger.held_note(), None);
    // A second timeout in a row releases nothing further.
    let again = trigger.on_note_event(None);
    assert_eq!(again.note_off, None);
    assert_eq!(again.note_on, None);
}

#[test]
fn release_keeps_the_buffer() {
    let mut trigger = NoteTrigger::new();
    trigger.on_note_event(Some(Right));
    trigger.on_note_event(Some(A));
    trigger.on_note_event(None);
    let snap = trigger.snapshot();
    assert_eq!(snap[0], Some(Right));
    assert_eq!(snap[1], Some(A));
}

#[test]
fn scenario_song_of_time() {
    let mut trigger = NoteTrigger::new();
    let mut last = None;
    for n in [Right, A, Down, Right, A, Down] {
        last = Some(trigger.on_note_event(Some(n)));
    }
    assert_eq!(
        *trigger.snapshot(),
        [
            Some(Right),
            Some(A),
            Some(Down),
            Some(Right),
            Some(A),
            Some(Down),
            None,
            None,
        ]
    );
    assert_eq!(trigger.playing_song(), Some(Song::SongOfTime));
    assert_eq!(
        last.unwrap().sequencer,
        SequencerCommand::Play(Song::SongOfTime)
    );
}

#[test]
fn scenario_song_of_storms() {
    let mut trigger = NoteTrigger::new();
    let mut last = None;
    for n in [A, Down, Up, A, Down, Up] {
        last = Some(trigger.on_note_event(Some(n)));
    }
    assert_eq!(trigger.playing_song(), Some(Song::SongOfStorms));
    assert_eq!(
        last.unwrap().sequencer,
        SequencerCommand::Play(Song::SongOfStorms)
    );
}

#[test]
fn scenario_unrecognized_then_timeout() {
    let mut trigger = NoteTrigger::new();
    // Three notes that match nothing: the sequencer is told to stop (i.e.
    // remain stopped) after each one.
    for n in [Up, Down, Left] {
        let actions = trigger.on_note_event(Some(n));
        assert_eq!(actions.sequencer, SequencerCommand::Stop);
        assert_eq!(trigger.playing_song(), None);
    }
    // The idle timeout releases the held note exactly once and commands
    // nothing of the sequencer.
    let timeout = trigger.on_note_event(None);
    assert_eq!(timeout.note_off, Some(Left));
    assert_eq!(timeout.note_on, None);
    assert_eq!(timeout.sequencer, SequencerCommand::Keep);
    assert_eq!(trigger.playing_song(), None);
}

#[test]
fn trigger_buffer_wraps_after_eight_notes() {
    let mut trigger = NoteTrigger::new();
    for _ in 0..4 {
        trigger.on_note_event(Some(A));
        trigger.on_note_event(Some(Down));
    }
    // Eight notes accumulated; the ninth wraps the buffer.
    let actions = trigger.on_note_event(Some(Up));
    assert_eq!(actions.sequencer, SequencerCommand::Stop);
    let snap = trigger.snapshot();
    assert_eq!(snap[0], Some(Up));
    assert_eq!(snap[1], None);
}

#[test]
fn key_mappings() {
    assert_eq!(note_from_key(&KeyPress::Char('a')), Some(A));
    assert_eq!(note_from_key(&KeyPress::Char('j')), Some(Down));
    assert_eq!(note_from_key(&KeyPress::Char('l')), Some(Right));
    assert_eq!(note_from_key(&KeyPress::Char('h')), Some(Left));
    assert_eq!(note_from_key(&KeyPress::Char('k')), Some(Up));
    assert_eq!(note_from_key(&KeyPress::ArrowDown), Some(Down));
    assert_eq!(note_from_key(&KeyPress::ArrowRight), Some(Right));
    assert_eq!(note_from_key(&KeyPress::ArrowLeft), Some(Left));
    assert_eq!(note_from_key(&KeyPress::ArrowUp), Some(Up));
    assert_eq!(note_from_key(&KeyPress::Char('x')), None);
    assert_eq!(note_from_key(&KeyPress::Other), None);
}

#[test]
fn quit_keys() {
    assert!(is_quit_key(&KeyPress::Char('q'), false));
    assert!(is_quit_key(&KeyPress::Char('q'), true));
    assert!(is_quit_key(&KeyPress::Char('c'), true));
    assert!(!is_quit_key(&KeyPress::Char('c'), false));
    assert!(!is_quit_key(&KeyPress::Char('a'), false));
    assert!(!is_quit_key(&KeyPress::Other, true));
}
