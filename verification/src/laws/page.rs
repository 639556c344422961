//! What the decisions of the page are for.
use crate::manifest::track_views;
use crate::page::{
    duration_wanted, map_key, pick_files, picked_tracks, place, CellRect, CoreKey, CoreKeyEvent,
    FilePick, FirstGesture, KeyActions, KeyCode, KeyEvent, KeyPress, PickedFile,
};
use vstd::prelude::*;

verus! {

/// The player gets the key that was pressed: a character as that character, a named key that it
/// knows as that key, and any other as one that it ignores. It gets the control key too, and
/// neither of the other modifiers makes a difference.
pub proof fn keys_reach_the_player(ev: KeyEvent, r: CoreKeyEvent)
    requires
        call_ensures(map_key, (ev,), r),
    ensures
        r.ctrl == ev.ctrl,
        ev.code is Char <==> r.code is Char,
        ev.code matches KeyCode::Char(c) ==> r.code == CoreKey::Char(c),
        ev.code == KeyCode::Up <==> r.code == CoreKey::Up,
        ev.code == KeyCode::Down <==> r.code == CoreKey::Down,
        ev.code == KeyCode::Left <==> r.code == CoreKey::Left,
        ev.code == KeyCode::Right <==> r.code == CoreKey::Right,
        ev.code == KeyCode::PageUp <==> r.code == CoreKey::PageUp,
        ev.code == KeyCode::PageDown <==> r.code == CoreKey::PageDown,
        ev.code == KeyCode::Home <==> r.code == CoreKey::Home,
        ev.code == KeyCode::End <==> r.code == CoreKey::End,
        ev.code == KeyCode::Tab <==> r.code == CoreKey::Tab,
        ev.code == KeyCode::Enter <==> r.code == CoreKey::Enter,
        ev.code == KeyCode::Esc <==> r.code == CoreKey::Esc,
{
}

/// An event of the player has the key and the modifier that it is made of.
pub proof fn events_have_their_parts(code: CoreKey, ctrl: bool, r: CoreKeyEvent)
    requires
        call_ensures(CoreKeyEvent::with_ctrl, (code, ctrl), r),
    ensures
        r.code == code,
        r.ctrl == ctrl,
{
}

/// The first key of a page unlocks the audio, and starts the first track if nothing is playing and
/// there is one. The player then handles the key.
pub proof fn first_key_unlocks_the_audio(
    fresh: FirstGesture,
    gesture: &mut FirstGesture,
    press: KeyPress,
    r: KeyActions,
    key: CoreKeyEvent,
)
    requires
        call_ensures(FirstGesture::new, (), fresh),
        *old(gesture) == fresh,
        call_ensures(FirstGesture::key_pressed, (gesture, press), r),
        call_ensures(map_key, (press.event,), key),
    ensures
        r.unlock_audio,
        r.play == Some(0usize) <==> press.playing is None && press.track_count > 0,
        r.play is None <==> press.playing is Some || press.track_count == 0,
        r.key == key,
{
}

/// A key that follows another one only goes to the player, whatever the player is doing.
pub proof fn later_keys_only_reach_the_player(
    before: &mut FirstGesture,
    earlier: KeyPress,
    first: KeyActions,
    gesture: &mut FirstGesture,
    press: KeyPress,
    r: KeyActions,
    key: CoreKeyEvent,
)
    requires
        call_ensures(FirstGesture::key_pressed, (before, earlier), first),
        *old(gesture) == *final(before),
        call_ensures(FirstGesture::key_pressed, (gesture, press), r),
        call_ensures(map_key, (press.event,), key),
    ensures
        !r.unlock_audio,
        r.play is None,
        r.key == key,
{
}

/// The backend is asked for a duration exactly as long as none is known.
pub proof fn unknown_durations_are_asked_for<D>(known: &Option<D>, r: bool)
    requires
        call_ensures(duration_wanted::<D>, (known,), r),
    ensures
        r <==> *known is None,
{
}

/// The picked items that are there and have a URL, in order.
pub open spec fn playable_files(files: Seq<Option<PickedFile>>) -> Seq<Option<PickedFile>> {
    files.filter(|f: Option<PickedFile>| f is Some && f->0.url is Some)
}

/// The tracks that a pick adds are those of its playable files: as many, and in the same order.
proof fn lemma_playable_files(files: Seq<Option<PickedFile>>)
    ensures
        ({
            let kept = playable_files(files);
            let tracks = picked_tracks(files);
            &&& tracks.len() == kept.len()
            &&& forall|k: int|
                0 <= k < kept.len() ==> {
                    &&& #[trigger] kept[k] is Some
                    &&& kept[k]->0.url is Some
                    &&& tracks[k].url == kept[k]->0.url->0@
                    &&& tracks[k].title == kept[k]->0.name@
                }
        }),
    decreases files.len(),
{
    reveal(Seq::filter);
    if files.len() > 0 {
        let last = files.last();
        lemma_playable_files(files.drop_last());
        assert(playable_files(files) == if last is Some && last->0.url is Some {
            playable_files(files.drop_last()).push(last)
        } else {
            playable_files(files.drop_last())
        });
    }
}

/// A pick adds one track for each item that is there and has a URL, in order, with that URL and
/// the file's name for a title, however many there are. It starts the first of them, which stands
/// where the playlist ended, and nothing if there is none.
pub proof fn every_playable_file_is_added(
    track_count: usize,
    files: Vec<Option<PickedFile>>,
    r: FilePick,
)
    requires
        call_ensures(pick_files, (track_count, files), r),
    ensures
        r.added@.len() == playable_files(files@).len(),
        forall|k: int|
            0 <= k < r.added@.len() ==> {
                let file = playable_files(files@)[k]->0;
                &&& file.url is Some
                &&& (#[trigger] r.added@[k]).url@ == file.url->0@
                &&& r.added@[k].title@ == file.name@
            },
        r.added@.len() > 0 ==> r.play == Some(track_count),
        r.added@.len() == 0 ==> r.play is None,
{
    lemma_playable_files(files@);
    let views = track_views(r.added@);
    assert(views.len() == r.added@.len());
    assert forall|k: int| 0 <= k < r.added@.len() implies ({
        let file = playable_files(files@)[k]->0;
        &&& file.url is Some
        &&& (#[trigger] r.added@[k]).url@ == file.url->0@
        &&& r.added@[k].title@ == file.name@
    }) by {
        assert(views[k] == r.added@[k]@);
        assert(playable_files(files@)[k] is Some);
    }
}

/// An overlay lies over its cells exactly if it has some, the terminal has an extent, and the page
/// has a container with a width. Else it lies nowhere.
pub proof fn overlays_lie_over_their_cells(
    cell: Option<CellRect>,
    term: CellRect,
    container_has_width: Option<bool>,
    r: Option<CellRect>,
)
    requires
        call_ensures(place, (cell, term, container_has_width), r),
    ensures
        r is Some <==> {
            &&& cell is Some
            &&& term.width > 0
            &&& term.height > 0
            &&& container_has_width == Some(true)
        },
        r is Some ==> r == cell,
{
}

} // verus!
