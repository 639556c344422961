//! What the page's library and settings are for.
use crate::library::{ConfigSource, LocalStorageConfig, StorageItem, WebLibrary};
use crate::manifest::Track;
use vstd::prelude::*;

verus! {

/// A page finds no files by itself, wherever it looks, and that is no error.
pub proof fn page_finds_no_files(
    library: &WebLibrary,
    place: &str,
    entries: Vec<String>,
    playlist: Result<Vec<Track>, String>,
    tracks: Vec<Track>,
    cover: Option<Vec<u8>>,
)
    requires
        call_ensures(WebLibrary::browse, (library, place), entries),
        call_ensures(WebLibrary::load_playlist, (library, place), playlist),
        call_ensures(WebLibrary::scan_directory, (library, place), tracks),
        call_ensures(WebLibrary::find_cover, (library, place), cover),
    ensures
        entries@.len() == 0,
        playlist is Ok,
        playlist->Ok_0@.len() == 0,
        tracks@.len() == 0,
        cover is None,
{
}

/// A track has the metadata and the subtitles that their types have by default.
pub proof fn page_reads_no_files<M: Default, S: Default>(
    library: &WebLibrary,
    source: &str,
    metadata: M,
    subtitles: S,
)
    requires
        call_ensures(WebLibrary::read_metadata::<M>, (library, source), metadata),
        call_ensures(WebLibrary::load_subtitles::<S>, (library, source), subtitles),
    ensures
        call_ensures(M::default, (), metadata),
        call_ensures(S::default, (), subtitles),
{
}

/// Settings that were saved are loaded again: with a storage, they are put under the key from
/// which they are loaded, and as they are. Without one nothing is stored.
pub proof fn saved_settings_are_loaded(
    config: &LocalStorageConfig,
    has_storage: bool,
    content: String,
    item: Option<StorageItem>,
    key: String,
)
    requires
        call_ensures(LocalStorageConfig::save, (config, has_storage, content), item),
        call_ensures(LocalStorageConfig::key, (config,), key),
    ensures
        item is Some <==> has_storage,
        item matches Some(stored) ==> stored.key@ == key@ && stored.value@ == content@,
        key@ == "sparkplayer"@,
{
}

/// Settings come from the stored text, whatever it is, and are the defaults only if there is none.
pub proof fn stored_settings_count(
    config: &LocalStorageConfig,
    item: Option<String>,
    r: ConfigSource,
)
    requires
        call_ensures(LocalStorageConfig::load, (config, item), r),
    ensures
        item is None <==> r == ConfigSource::Default,
        item matches Some(content) ==> r == ConfigSource::Stored(content),
{
}

} // verus!
