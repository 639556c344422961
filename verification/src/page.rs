//! The decisions of the player's page: keys, the first gesture, picked files and overlays.
use crate::manifest::{track_views, Track, TrackView};
use vstd::prelude::*;

verus! {

/// A key as the page's terminal reports it.
#[derive(Clone, Copy, Debug, PartialEq, Eq)]
pub enum KeyCode {
    Char(char),
    F(u8),
    Backspace,
    Enter,
    Left,
    Right,
    Up,
    Down,
    Tab,
    Delete,
    Home,
    End,
    PageUp,
    PageDown,
    Esc,
    Unidentified,
}

/// A key press as the page's terminal reports it.
#[derive(Clone, Copy, Debug, PartialEq, Eq)]
pub struct KeyEvent {
    pub code: KeyCode,
    pub ctrl: bool,
    pub alt: bool,
    pub shift: bool,
}

/// A key as the player knows it, on every platform.
#[derive(Clone, Copy, Debug, PartialEq, Eq)]
pub enum CoreKey {
    Char(char),
    Up,
    Down,
    Left,
    Right,
    PageUp,
    PageDown,
    Home,
    End,
    Tab,
    Enter,
    Esc,
    Other,
}

/// A key press as the player knows it.
#[derive(Clone, Copy, Debug, PartialEq, Eq)]
pub struct CoreKeyEvent {
    pub code: CoreKey,
    pub ctrl: bool,
}

impl CoreKeyEvent {
    /// A press of a key, with or without the control key.
    pub fn with_ctrl(code: CoreKey, ctrl: bool) -> (r: Self)
        ensures
            r == (CoreKeyEvent { code, ctrl }),
    {
        CoreKeyEvent { code, ctrl }
    }
}

/// The player's key for a key of the page. Keys for which the player has no use are one.
pub open spec fn core_key(code: KeyCode) -> CoreKey {
    match code {
        KeyCode::Char(c) => CoreKey::Char(c),
        KeyCode::Up => CoreKey::Up,
        KeyCode::Down => CoreKey::Down,
        KeyCode::Left => CoreKey::Left,
        KeyCode::Right => CoreKey::Right,
        KeyCode::PageUp => CoreKey::PageUp,
        KeyCode::PageDown => CoreKey::PageDown,
        KeyCode::Home => CoreKey::Home,
        KeyCode::End => CoreKey::End,
        KeyCode::Tab => CoreKey::Tab,
        KeyCode::Enter => CoreKey::Enter,
        KeyCode::Esc => CoreKey::Esc,
        KeyCode::F(_) | KeyCode::Backspace | KeyCode::Delete | KeyCode::Unidentified => {
            CoreKey::Other
        },
    }
}

/// The player's key press for one of the page. Of the modifiers only the control key counts.
pub open spec fn mapped_key(ev: KeyEvent) -> CoreKeyEvent {
    CoreKeyEvent { code: core_key(ev.code), ctrl: ev.ctrl }
}

/// Maps a key press of the page to the player's.
pub fn map_key(ev: KeyEvent) -> (r: CoreKeyEvent)
    ensures
        r == mapped_key(ev),
{
    let code = match ev.code {
        KeyCode::Char(c) => CoreKey::Char(c),
        KeyCode::Up => CoreKey::Up,
        KeyCode::Down => CoreKey::Down,
        KeyCode::Left => CoreKey::Left,
        KeyCode::Right => CoreKey::Right,
        KeyCode::PageUp => CoreKey::PageUp,
        KeyCode::PageDown => CoreKey::PageDown,
        KeyCode::Home => CoreKey::Home,
        KeyCode::End => CoreKey::End,
        KeyCode::Tab => CoreKey::Tab,
        KeyCode::Enter => CoreKey::Enter,
        KeyCode::Esc => CoreKey::Esc,
        _ => CoreKey::Other,
    };
    CoreKeyEvent::with_ctrl(code, ev.ctrl)
}

/// Two keys that the player does not ignore stay two keys.
pub proof fn core_keys_are_distinct(a: KeyCode, b: KeyCode)
    requires
        core_key(a) == core_key(b),
        core_key(a) != CoreKey::Other,
    ensures
        a == b,
{
}

/// A key press, with what the player is doing when it comes.
#[derive(Clone, Copy, Debug, PartialEq, Eq)]
pub struct KeyPress {
    pub event: KeyEvent,
    /// The track that is playing.
    pub playing: Option<usize>,
    /// The number of tracks of the playlist.
    pub track_count: usize,
}

/// What a key press asks for, in this order.
#[derive(Clone, Copy, Debug, PartialEq, Eq)]
pub struct KeyActions {
    /// Whether to tell the audio backend of the user's gesture.
    pub unlock_audio: bool,
    /// The track to start, if any.
    pub play: Option<usize>,
    /// The key press that the player then handles.
    pub key: CoreKeyEvent,
}

/// What a key press asks for. The first one unlocks the audio, and starts the first track of a
/// playlist of which nothing is playing; later ones do neither. The player handles all of them.
pub open spec fn key_actions(first: bool, press: KeyPress) -> KeyActions {
    KeyActions {
        unlock_audio: first,
        play: if first && press.playing is None && press.track_count > 0 {
            Some(0usize)
        } else {
            None
        },
        key: mapped_key(press.event),
    }
}

/// Browsers let a page sound only after a gesture of the user: this waits for the first key.
pub struct FirstGesture {
    pending: bool,
}

impl FirstGesture {
    /// Whether no key has been pressed yet.
    pub closed spec fn is_pending(&self) -> bool {
        self.pending
    }

    /// No key has been pressed yet.
    pub fn new() -> (r: Self)
        ensures
            r.is_pending(),
    {
        FirstGesture { pending: true }
    }

    /// Takes note of a key press, and says what it asks for.
    pub fn key_pressed(&mut self, press: KeyPress) -> (r: KeyActions)
        ensures
            !final(self).is_pending(),
            r == key_actions(old(self).is_pending(), press),
    {
        let first = self.pending;
        self.pending = false;
        let play = if first && press.playing.is_none() && press.track_count > 0 {
            Some(0)
        } else {
            None
        };
        KeyActions { unlock_audio: first, play, key: map_key(press.event) }
    }
}

/// What a run of key presses asks for, each in its turn. After the first press, none is pending.
pub open spec fn actions_of(pending: bool, presses: Seq<KeyPress>) -> Seq<KeyActions>
    decreases presses.len(),
{
    if presses.len() == 0 {
        Seq::empty()
    } else {
        seq![key_actions(pending, presses.first())] + actions_of(false, presses.drop_first())
    }
}

/// Of any run of key presses the first alone unlocks the audio, and no later one starts a track,
/// not even if the playlist was still empty at the first. The player handles every press once
/// and in order.
pub proof fn first_key_alone_is_a_gesture(presses: Seq<KeyPress>)
    ensures
        ({
            let actions = actions_of(true, presses);
            &&& actions.len() == presses.len()
            &&& forall|i: int|
                0 <= i < presses.len() ==> {
                    &&& (#[trigger] actions[i]).unlock_audio == (i == 0)
                    &&& actions[i].play == (if i == 0 && presses[i].playing is None
                        && presses[i].track_count > 0 {
                        Some(0usize)
                    } else {
                        None
                    })
                    &&& actions[i].key == mapped_key(presses[i].event)
                }
        }),
{
    if presses.len() > 0 {
        lemma_later_actions(presses.drop_first());
    }
}

/// What key presses after the first ask for.
proof fn lemma_later_actions(presses: Seq<KeyPress>)
    ensures
        actions_of(false, presses).len() == presses.len(),
        forall|i: int|
            0 <= i < presses.len() ==> #[trigger] actions_of(false, presses)[i] == key_actions(
                false,
                presses[i],
            ),
    decreases presses.len(),
{
    if presses.len() > 0 {
        lemma_later_actions(presses.drop_first());
    }
}

/// Whether the page asks the audio backend for the duration of the current track: as long as none
/// is known.
pub fn duration_wanted<D>(known: &Option<D>) -> (r: bool)
    ensures
        r == (*known is None),
{
    known.is_none()
}

/// A file that the user has picked: its object URL, if the browser made one, and its name.
#[derive(Debug, PartialEq, Eq)]
pub struct PickedFile {
    pub url: Option<String>,
    pub name: String,
}

/// The tracks that one item of the picked list adds: one, if the item is there and has a URL.
pub open spec fn picked_track(file: Option<PickedFile>) -> Seq<TrackView> {
    match file {
        Some(PickedFile { url: Some(url), name }) => seq![TrackView { url: url@, title: name@ }],
        _ => Seq::empty(),
    }
}

/// The tracks that a list of picked files adds, in order.
pub open spec fn picked_tracks(files: Seq<Option<PickedFile>>) -> Seq<TrackView>
    decreases files.len(),
{
    if files.len() == 0 {
        Seq::empty()
    } else {
        picked_tracks(files.drop_last()) + picked_track(files.last())
    }
}

/// What picked files do to the playlist.
#[derive(Debug, PartialEq, Eq)]
pub struct FilePick {
    /// The tracks that go to the end of the playlist.
    pub added: Vec<Track>,
    /// The track to start, as a gesture of the user: the first of those that were added.
    pub play: Option<usize>,
}

/// Turns picked files into tracks for the end of a playlist that has `track_count` of them.
pub fn pick_files(track_count: usize, files: Vec<Option<PickedFile>>) -> (r: FilePick)
    ensures
        track_views(r.added@) == picked_tracks(files@),
        r.play == (if picked_tracks(files@).len() > 0 {
            Some(track_count)
        } else {
            None
        }),
{
    let mut added: Vec<Track> = Vec::new();
    let mut i: usize = 0;
    while i < files.len()
        invariant
            i <= files@.len(),
            track_views(added@) == picked_tracks(files@.take(i as int)),
        decreases files@.len() - i,
    {
        let ghost before = added@;
        assert(files@.take(i + 1).drop_last() == files@.take(i as int));
        if let Some(file) = &files[i] {
            if let Some(url) = &file.url {
                added.push(Track::from_url(url.clone(), file.name.clone()));
                assert(track_views(added@) == track_views(before) + picked_track(
                    files@[i as int],
                ));
            }
        }
        i = i + 1;
    }
    assert(files@.take(files@.len() as int) == files@);
    let play = if added.len() > 0 {
        Some(track_count)
    } else {
        None
    };
    assert(track_views(added@).len() == added@.len());
    FilePick { added, play }
}

/// The track that a file pick starts is one of those that it adds.
pub proof fn picked_file_starts_first_added(
    playlist: Seq<TrackView>,
    files: Seq<Option<PickedFile>>,
)
    requires
        picked_tracks(files).len() > 0,
    ensures
        (playlist + picked_tracks(files))[playlist.len() as int] == picked_tracks(files).first(),
{
}

/// A rectangle of terminal cells.
#[derive(Clone, Copy, Debug, PartialEq, Eq)]
pub struct CellRect {
    pub x: u16,
    pub y: u16,
    pub width: u16,
    pub height: u16,
}

/// Decides where an overlay lies: over the given cells, or nowhere. It is hidden if no cells
/// were recorded for it, if the page has no container for the terminal, and if the terminal or
/// the container has no extent. `container_has_width` is there if the container is.
pub fn place(
    cell: Option<CellRect>,
    term: CellRect,
    container_has_width: Option<bool>,
) -> (r: Option<CellRect>)
    ensures
        r == (if container_has_width == Some(true) && term.width != 0 && term.height != 0 {
            cell
        } else {
            None
        }),
{
    match (cell, container_has_width) {
        (Some(cell), Some(has_width)) => {
            if term.width == 0 || term.height == 0 || !has_width {
                None
            } else {
                Some(cell)
            }
        },
        _ => None,
    }
}

} // verus!
