//! What the reading of a manifest is for.
use crate::manifest::{
    elements, entry_of, entry_views, fetch_manifest_tracks, is_array, json_value, listed_tracks,
    load_manifest, manifest_entries, manifest_tracks, parse_manifest, property, string_value,
    track_views, EntryView, ManifestEntry, ManifestOutcome, Track,
};
use crate::text::decimal_text;
use vstd::prelude::*;

verus! {

/// A track has the URL and the title that it is made of.
pub proof fn track_has_its_url_and_title(url: String, title: String, r: Track)
    requires
        call_ensures(Track::from_url, (url, title), r),
    ensures
        r.url@ == url@,
        r.title@ == title@,
{
    assert(r@.url == url@);
    assert(r@.title == title@);
}

/// The elements that have a URL, in order.
pub open spec fn playable(entries: Seq<ManifestEntry>) -> Seq<ManifestEntry> {
    entries.filter(|e: ManifestEntry| e.url is Some)
}

/// Whether a track is what an element stands for: the element's URL, with the element's title or,
/// for want of one, with the URL for a title.
pub open spec fn stands_for(track: Track, url: Seq<char>, title: Option<Seq<char>>) -> bool {
    &&& track.url@ == url
    &&& title matches Some(t) ==> track.title@ == t
    &&& title is None ==> track.title@ == url
}

/// The tracks of a list are those of its elements with a URL: as many, and in the same order.
proof fn lemma_playable(entries: Seq<ManifestEntry>)
    ensures
        ({
            let kept = playable(entries);
            let tracks = listed_tracks(entry_views(entries));
            &&& tracks.len() == kept.len()
            &&& forall|k: int|
                0 <= k < kept.len() ==> {
                    &&& (#[trigger] kept[k]).url is Some
                    &&& tracks[k].url == kept[k].url->0@
                    &&& tracks[k].title == (if kept[k].title is Some {
                        kept[k].title->0@
                    } else {
                        kept[k].url->0@
                    })
                }
        }),
    decreases entries.len(),
{
    reveal(Seq::filter);
    if entries.len() > 0 {
        lemma_playable(entries.drop_last());
        assert(entry_views(entries).drop_last() == entry_views(entries.drop_last()));
        assert(playable(entries) == if entries.last().url is Some {
            playable(entries.drop_last()).push(entries.last())
        } else {
            playable(entries.drop_last())
        });
    }
}

/// Every element with a URL gives one track, in order, and no other element does. A list may have
/// any length.
pub proof fn every_playable_element_is_a_track(entries: Vec<ManifestEntry>, r: Vec<Track>)
    requires
        call_ensures(manifest_tracks, (entries,), r),
    ensures
        r@.len() == playable(entries@).len(),
        forall|k: int|
            0 <= k < r@.len() ==> {
                let e = playable(entries@)[k];
                &&& e.url is Some
                &&& stands_for(
                    #[trigger] r@[k],
                    e.url->0@,
                    if e.title is Some {
                        Some(e.title->0@)
                    } else {
                        None
                    },
                )
            },
{
    lemma_playable(entries@);
    let views = track_views(r@);
    assert(views.len() == r@.len());
    assert forall|k: int| 0 <= k < r@.len() implies ({
        let e = playable(entries@)[k];
        &&& e.url is Some
        &&& stands_for(
            #[trigger] r@[k],
            e.url->0@,
            if e.title is Some {
                Some(e.title->0@)
            } else {
                None
            },
        )
    }) by {
        assert(views[k] == r@[k]@);
    }
}

/// The string that the page's engine finds in a value under a key, if it finds one.
pub open spec fn text_under(value: wasm_bindgen::JsValue, key: Seq<char>) -> Option<Seq<char>> {
    match property(value, key) {
        Some(found) => string_value(found),
        None => None,
    }
}

/// The values that have a string under `url`, in order.
pub open spec fn with_url(values: Seq<wasm_bindgen::JsValue>) -> Seq<wasm_bindgen::JsValue> {
    values.filter(|v: wasm_bindgen::JsValue| text_under(v, "url"@) is Some)
}

/// The tracks of an array are those of its values with a string under `url`.
proof fn lemma_with_url(values: Seq<wasm_bindgen::JsValue>, entries: Seq<EntryView>)
    requires
        entries.len() == values.len(),
        forall|i: int| 0 <= i < values.len() ==> #[trigger] entries[i] == entry_of(values[i]),
    ensures
        ({
            let kept = with_url(values);
            let tracks = listed_tracks(entries);
            &&& tracks.len() == kept.len()
            &&& forall|k: int|
                0 <= k < kept.len() ==> {
                    &&& text_under(#[trigger] kept[k], "url"@) == Some(tracks[k].url)
                    &&& tracks[k].title == (match text_under(kept[k], "title"@) {
                        Some(title) => title,
                        None => tracks[k].url,
                    })
                }
        }),
    decreases values.len(),
{
    reveal(Seq::filter);
    if values.len() > 0 {
        let last = values.last();
        assert(entries.last() == entry_of(last));
        lemma_with_url(values.drop_last(), entries.drop_last());
        assert(with_url(values) == if text_under(last, "url"@) is Some {
            with_url(values.drop_last()).push(last)
        } else {
            with_url(values.drop_last())
        });
    }
}

/// A manifest's playlist has one track for each element of the array under `tracks` that has a
/// string under `url`, in order: that string is its URL, and the string under `title` its title,
/// or the URL if there is none. A text that is not JSON, or that has no array there, gives no
/// tracks.
pub proof fn manifest_lists_the_elements_under_tracks(text: &str, r: Vec<Track>)
    requires
        call_ensures(parse_manifest, (text,), r),
    ensures
        json_value(text@) is None ==> r@.len() == 0,
        json_value(text@) matches Some(value) ==> match property(value, "tracks"@) {
            None => r@.len() == 0,
            Some(tracks) => if is_array(tracks) {
                let kept = with_url(elements(tracks));
                &&& r@.len() == kept.len()
                &&& forall|k: int|
                    0 <= k < r@.len() ==> {
                        &&& text_under(kept[k], "url"@) is Some
                        &&& stands_for(
                            #[trigger] r@[k],
                            text_under(kept[k], "url"@)->0,
                            text_under(kept[k], "title"@),
                        )
                    }
            } else {
                r@.len() == 0
            },
        },
{
    let views = track_views(r@);
    let entries = manifest_entries(text@);
    assert(views.len() == r@.len());
    if let Some(value) = json_value(text@) {
        if let Some(tracks) = property(value, "tracks"@) {
            if is_array(tracks) {
                let kept = with_url(elements(tracks));
                lemma_with_url(elements(tracks), entries);
                assert forall|k: int| 0 <= k < r@.len() implies ({
                    &&& text_under(kept[k], "url"@) is Some
                    &&& stands_for(
                        #[trigger] r@[k],
                        text_under(kept[k], "url"@)->0,
                        text_under(kept[k], "title"@),
                    )
                }) by {
                    assert(views[k] == r@[k]@);
                }
            }
        }
    }
}

/// A reply that reports success lists what its body lists as a manifest, and what the empty text
/// does if it has none; any other reply lists nothing.
pub proof fn reply_lists_its_manifest(
    ok: bool,
    body: Option<String>,
    r: Vec<Track>,
    text: &str,
    parsed: Vec<Track>,
)
    requires
        call_ensures(fetch_manifest_tracks, (ok, body), r),
        call_ensures(parse_manifest, (text,), parsed),
        body matches Some(b) ==> text@ == b@,
        body is None ==> text@.len() == 0,
    ensures
        !ok ==> r@.len() == 0,
        ok ==> r@.len() == parsed@.len(),
        ok ==> forall|k: int|
            0 <= k < r@.len() ==> (#[trigger] r@[k]).url@ == parsed@[k].url@ && r@[k].title@
                == parsed@[k].title@,
{
    let views = track_views(r@);
    assert(views.len() == r@.len());
    if body is None {
        assert(text@ == Seq::<char>::empty());
    }
    if ok {
        let same = track_views(parsed@);
        assert(views == same);
        assert(same.len() == parsed@.len());
        assert forall|k: int| 0 <= k < r@.len() implies (#[trigger] r@[k]).url@ == parsed@[k].url@
            && r@[k].title@ == parsed@[k].title@ by {
            assert(views[k] == r@[k]@);
            assert(same[k] == parsed@[k]@);
        }
    }
}

/// A list with tracks becomes the playlist as it is, with its first track selected, and the status
/// tells how many there are. Without tracks only the status changes.
pub proof fn tracks_become_the_playlist(
    fetched: Option<Vec<Track>>,
    r: ManifestOutcome,
    count: u64,
    digits: String,
)
    requires
        call_ensures(load_manifest, (fetched,), r),
        fetched matches Some(tracks) ==> count == tracks@.len(),
        call_ensures(decimal_text, (count,), digits),
    ensures
        r is Loaded <==> fetched is Some && fetched->0@.len() > 0,
        r matches ManifestOutcome::Loaded { tracks, selected, status } ==> {
            &&& Some(tracks) == fetched
            &&& selected == 0
            &&& status@ == "Loaded "@ + digits@ + " track(s) — press any key to start"@
        },
        r matches ManifestOutcome::Missing { status } ==> status@
            == "No manifest — use the file picker to add local files"@,
{
}

} // verus!
