//! The web playlist: a manifest in JSON that lists tracks.
//!
//! The text is read by the page's JavaScript engine. So [`parse_manifest`] runs in a page only,
//! that is on `wasm32`: `wasm-bindgen` has no engine to call elsewhere.
use crate::text::{decimal, decimal_text, push_text};
use vstd::prelude::*;

verus! {

/// A handle of a value in the JavaScript engine.
#[verifier::external_type_specification]
#[verifier::external_body]
pub struct ExJsValue(wasm_bindgen::JsValue);

/// What `js_sys::JSON::parse` makes of a text: a value, or none for a text that is not JSON.
pub uninterp spec fn json_value(text: Seq<char>) -> Option<wasm_bindgen::JsValue>;

/// Whether a value is data that was read from JSON, or the `undefined` that stands for the lack
/// of it. Nothing else holds such data, and none of it changes.
pub uninterp spec fn is_json_data(value: wasm_bindgen::JsValue) -> bool;

/// A key of the manifest.
pub open spec fn is_manifest_key(key: Seq<char>) -> bool {
    key == "tracks"@ || key == "url"@ || key == "title"@
}

/// What `js_sys::Reflect::get` finds in JSON data under a key of the manifest: a value
/// (`undefined` where there is no such key), or none where the data is not an object.
pub uninterp spec fn property(
    target: wasm_bindgen::JsValue,
    key: Seq<char>,
) -> Option<wasm_bindgen::JsValue>;

/// Whether `JsValue::is_array` takes JSON data for an array.
pub uninterp spec fn is_array(value: wasm_bindgen::JsValue) -> bool;

/// The elements that `js_sys::Array::from` copies out of an array of JSON data.
pub uninterp spec fn elements(value: wasm_bindgen::JsValue) -> Seq<wasm_bindgen::JsValue>;

/// The text that `JsValue::as_string` gives of JSON data, if it is a string.
pub uninterp spec fn string_value(value: wasm_bindgen::JsValue) -> Option<Seq<char>>;

/// Calls `js_sys::JSON::parse`. What comes of a text is taken to be a function of the text, and
/// to be data that nothing else holds.
#[verifier::external_body]
fn json_parse(text: &str) -> (r: Option<wasm_bindgen::JsValue>)
    ensures
        r == json_value(text@),
        r matches Some(value) ==> is_json_data(value),
{
    js_sys::JSON::parse(text).ok()
}

/// Calls `js_sys::Reflect::get` with a string for the key. What is found in JSON data under a
/// key of the manifest is taken to be a function of the data and the key, and to be JSON data
/// again: no object has such a key unless the data gives it one.
#[verifier::external_body]
fn reflect_get(target: &wasm_bindgen::JsValue, key: &str) -> (r: Option<wasm_bindgen::JsValue>)
    requires
        is_json_data(*target),
        is_manifest_key(key@),
    ensures
        r == property(*target, key@),
        r matches Some(value) ==> is_json_data(value),
{
    js_sys::Reflect::get(target, &wasm_bindgen::JsValue::from_str(key)).ok()
}

/// Calls `JsValue::is_array`. The answer for JSON data is taken to be a function of the data.
#[verifier::external_body]
fn value_is_array(value: &wasm_bindgen::JsValue) -> (r: bool)
    requires
        is_json_data(*value),
    ensures
        r == is_array(*value),
{
    value.is_array()
}

/// Calls `js_sys::Array::from` and walks the copy with `js_sys::Array::iter`. The elements of an
/// array of JSON data are taken to be a function of the array, and to be JSON data.
#[verifier::external_body]
fn array_elements(value: &wasm_bindgen::JsValue) -> (r: Vec<wasm_bindgen::JsValue>)
    requires
        is_json_data(*value),
        is_array(*value),
    ensures
        r@ == elements(*value),
        forall|i: int| 0 <= i < r@.len() ==> is_json_data(#[trigger] r@[i]),
{
    js_sys::Array::from(value).iter().collect()
}

/// Calls `JsValue::as_string`. The text of JSON data is taken to be a function of the data.
#[verifier::external_body]
fn value_as_string(value: &wasm_bindgen::JsValue) -> (r: Option<String>)
    requires
        is_json_data(*value),
    ensures
        (match r {
            Some(s) => Some(s@),
            None => None,
        }) == string_value(*value),
{
    value.as_string()
}

/// A track of the playlist.
#[derive(Debug, PartialEq, Eq)]
pub struct Track {
    pub url: String,
    pub title: String,
}

/// A track, with its texts as sequences of characters.
pub struct TrackView {
    pub url: Seq<char>,
    pub title: Seq<char>,
}

impl View for Track {
    type V = TrackView;

    open spec fn view(&self) -> TrackView {
        TrackView { url: self.url@, title: self.title@ }
    }
}

impl Track {
    /// A track that is played from a URL.
    pub fn from_url(url: String, title: String) -> (r: Self)
        ensures
            r@ == (TrackView { url: url@, title: title@ }),
    {
        Track { url, title }
    }
}

/// The tracks of a list, with their texts as sequences of characters.
pub open spec fn track_views(tracks: Seq<Track>) -> Seq<TrackView> {
    Seq::new(tracks.len(), |i: int| tracks[i]@)
}

/// One element of the manifest's list: its URL and its title, where they are strings.
#[derive(Debug, PartialEq, Eq)]
pub struct ManifestEntry {
    pub url: Option<String>,
    pub title: Option<String>,
}

/// An element, with its texts as sequences of characters.
pub struct EntryView {
    pub url: Option<Seq<char>>,
    pub title: Option<Seq<char>>,
}

/// The characters of a text, if there is one.
pub open spec fn text_view(text: Option<String>) -> Option<Seq<char>> {
    match text {
        Some(s) => Some(s@),
        None => None,
    }
}

impl View for ManifestEntry {
    type V = EntryView;

    open spec fn view(&self) -> EntryView {
        EntryView { url: text_view(self.url), title: text_view(self.title) }
    }
}

/// The elements of a list, with their texts as sequences of characters.
pub open spec fn entry_views(entries: Seq<ManifestEntry>) -> Seq<EntryView> {
    Seq::new(entries.len(), |i: int| entries[i]@)
}

impl EntryView {
    /// The tracks that this element adds: one, if it has a URL. A track without a title is
    /// shown by its URL.
    pub open spec fn tracks(self) -> Seq<TrackView> {
        match self.url {
            None => Seq::empty(),
            Some(url) => seq![
                TrackView {
                    url,
                    title: match self.title {
                        Some(title) => title,
                        None => url,
                    },
                },
            ],
        }
    }
}

/// The tracks of a list of elements, in order.
pub open spec fn listed_tracks(entries: Seq<EntryView>) -> Seq<TrackView>
    decreases entries.len(),
{
    if entries.len() == 0 {
        Seq::empty()
    } else {
        listed_tracks(entries.drop_last()) + entries.last().tracks()
    }
}

/// The string under a key of JSON data, if there is one.
pub open spec fn string_property(value: wasm_bindgen::JsValue, key: Seq<char>) -> Option<
    Seq<char>,
> {
    match property(value, key) {
        None => None,
        Some(found) => string_value(found),
    }
}

/// One element of the manifest's list.
pub open spec fn entry_of(value: wasm_bindgen::JsValue) -> EntryView {
    EntryView {
        url: string_property(value, "url"@),
        title: string_property(value, "title"@),
    }
}

/// The list under the manifest's key `tracks`; empty where there is none.
pub open spec fn manifest_entries(text: Seq<char>) -> Seq<EntryView> {
    match json_value(text) {
        None => Seq::empty(),
        Some(value) => match property(value, "tracks"@) {
            None => Seq::empty(),
            Some(tracks) => if is_array(tracks) {
                elements(tracks).map_values(|v: wasm_bindgen::JsValue| entry_of(v))
            } else {
                Seq::empty()
            },
        },
    }
}

/// The string under a key of JSON data.
fn get_string(value: &wasm_bindgen::JsValue, key: &str) -> (r: Option<String>)
    requires
        is_json_data(*value),
        is_manifest_key(key@),
    ensures
        text_view(r) == string_property(*value, key@),
{
    match reflect_get(value, key) {
        None => None,
        Some(found) => value_as_string(&found),
    }
}

/// Reads the manifest's list.
fn read_entries(text: &str) -> (r: Vec<ManifestEntry>)
    ensures
        entry_views(r@) == manifest_entries(text@),
{
    let mut entries: Vec<ManifestEntry> = Vec::new();
    let value = match json_parse(text) {
        None => {
            return entries;
        },
        Some(value) => value,
    };
    let tracks = match reflect_get(&value, "tracks") {
        None => {
            return entries;
        },
        Some(tracks) => tracks,
    };
    if !value_is_array(&tracks) {
        return entries;
    }
    let items = array_elements(&tracks);
    let ghost all = elements(tracks).map_values(|v: wasm_bindgen::JsValue| entry_of(v));
    let mut i: usize = 0;
    while i < items.len()
        invariant
            i <= items@.len(),
            forall|j: int| 0 <= j < items@.len() ==> is_json_data(#[trigger] items@[j]),
            all == items@.map_values(|v: wasm_bindgen::JsValue| entry_of(v)),
            entry_views(entries@) == all.take(i as int),
        decreases items@.len() - i,
    {
        let ghost before = entries@;
        let entry = ManifestEntry {
            url: get_string(&items[i], "url"),
            title: get_string(&items[i], "title"),
        };
        assert(entry@ == entry_of(items@[i as int]));
        entries.push(entry);
        i = i + 1;
        assert(entry_views(entries@) == entry_views(before).push(entry@));
        assert(all.take(i as int) == all.take(i - 1).push(all[i - 1]));
    }
    assert(all.take(all.len() as int) == all);
    entries
}

/// The tracks that the elements of a manifest's list stand for. Elements without a URL are
/// passed over.
pub fn manifest_tracks(entries: Vec<ManifestEntry>) -> (r: Vec<Track>)
    ensures
        track_views(r@) == listed_tracks(entry_views(entries@)),
{
    let ghost all = entry_views(entries@);
    let mut out: Vec<Track> = Vec::new();
    let mut i: usize = 0;
    while i < entries.len()
        invariant
            i <= entries@.len(),
            all == entry_views(entries@),
            track_views(out@) == listed_tracks(all.take(i as int)),
        decreases entries@.len() - i,
    {
        let ghost before = out@;
        assert(all.take(i + 1).drop_last() == all.take(i as int));
        match &entries[i].url {
            None => {},
            Some(url) => {
                let title = match &entries[i].title {
                    Some(title) => title.clone(),
                    None => url.clone(),
                };
                out.push(Track::from_url(url.clone(), title));
                assert(track_views(out@) == track_views(before) + all[i as int].tracks());
            },
        }
        i = i + 1;
    }
    assert(all.take(all.len() as int) == all);
    out
}

/// Parses `{ "tracks": [ {"url": "...", "title": "..."} ] }`.
///
/// A text that is not JSON, or that has no list under `tracks`, lists no tracks.
pub fn parse_manifest(text: &str) -> (r: Vec<Track>)
    ensures
        track_views(r@) == listed_tracks(manifest_entries(text@)),
{
    manifest_tracks(read_entries(text))
}

/// The body of a reply, which is empty where there is none.
pub open spec fn body_text(body: Option<String>) -> Seq<char> {
    match body {
        Some(text) => text@,
        None => Seq::empty(),
    }
}

/// The tracks that the reply to the request for the manifest lists. A reply that does not
/// report success lists none, whatever its body.
pub fn fetch_manifest_tracks(ok: bool, body: Option<String>) -> (r: Vec<Track>)
    ensures
        track_views(r@) == (if ok {
            listed_tracks(manifest_entries(body_text(body)))
        } else {
            Seq::empty()
        }),
{
    if !ok {
        let none: Vec<Track> = Vec::new();
        assert(track_views(none@) == Seq::<TrackView>::empty());
        return none;
    }
    let text = match body {
        Some(text) => text,
        None => String::new(),
    };
    parse_manifest(text.as_str())
}

/// What the page does once the request for the manifest is answered.
#[derive(Debug, PartialEq, Eq)]
pub enum ManifestOutcome {
    /// Nothing to play: only the status changes.
    Missing { status: String },
    /// The tracks become the playlist, with one of them selected.
    Loaded { tracks: Vec<Track>, selected: usize, status: String },
}

/// The status of a page without a manifest.
pub open spec fn missing_status() -> Seq<char> {
    "No manifest — use the file picker to add local files"@
}

/// The status of a page whose manifest lists `n` tracks.
pub open spec fn loaded_status(n: nat) -> Seq<char> {
    "Loaded "@ + decimal(n) + " track(s) — press any key to start"@
}

/// Decides what the page does with the tracks of the manifest; `None` is a request that failed.
pub fn load_manifest(fetched: Option<Vec<Track>>) -> (r: ManifestOutcome)
    ensures
        match r {
            ManifestOutcome::Missing { status } => {
                &&& fetched matches Some(tracks) ==> tracks@.len() == 0
                &&& status@ == missing_status()
            },
            ManifestOutcome::Loaded { tracks, selected, status } => {
                &&& fetched == Some(tracks)
                &&& tracks@.len() > 0
                &&& selected == 0
                &&& status@ == loaded_status(tracks@.len())
            },
        },
{
    let tracks = match fetched {
        Some(tracks) => tracks,
        None => Vec::new(),
    };
    if tracks.len() == 0 {
        return ManifestOutcome::Missing {
            status: "No manifest — use the file picker to add local files".to_string(),
        };
    }
    let mut status = "Loaded ".to_string();
    push_text(&mut status, decimal_text(tracks.len() as u64).as_str());
    push_text(&mut status, " track(s) — press any key to start");
    ManifestOutcome::Loaded { tracks, selected: 0, status }
}

/// The playlist follows the manifest: the tracks of two lists, one after the other, are the
/// tracks of the first and then those of the second.
pub proof fn listed_tracks_keep_order(a: Seq<EntryView>, b: Seq<EntryView>)
    ensures
        listed_tracks(a + b) == listed_tracks(a) + listed_tracks(b),
    decreases b.len(),
{
    if b.len() == 0 {
        assert(a + b == a);
    } else {
        listed_tracks_keep_order(a, b.drop_last());
        assert((a + b).drop_last() == a + b.drop_last());
    }
}

/// The elements that have a URL.
pub open spec fn entries_with_url(entries: Seq<EntryView>) -> Seq<EntryView> {
    entries.filter(|e: EntryView| e.url is Some)
}

/// Every element with a URL gives a track, and no other does: each track has the URL of an
/// element, and its title or, for want of one, the URL.
pub proof fn listed_tracks_are_entries_with_url(entries: Seq<EntryView>)
    ensures
        listed_tracks(entries).len() == entries_with_url(entries).len(),
        forall|i: int|
            0 <= i < listed_tracks(entries).len() ==> (#[trigger] entries_with_url(
                entries,
            )[i]).tracks() == seq![listed_tracks(entries)[i]],
    decreases entries.len(),
{
    let keep = |e: EntryView| e.url is Some;
    reveal(Seq::filter);
    if entries.len() > 0 {
        listed_tracks_are_entries_with_url(entries.drop_last());
        assert(entries.filter(keep) == if keep(entries.last()) {
            entries.drop_last().filter(keep).push(entries.last())
        } else {
            entries.drop_last().filter(keep)
        });
    }
}

} // verus!
