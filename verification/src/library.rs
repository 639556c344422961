//! The page's media library and settings.
//!
//! A page has no file system: its tracks come from the manifest or from picked files, so the
//! library finds nothing by itself. Settings are kept in the browser's local storage.
use crate::manifest::Track;
use vstd::prelude::*;

verus! {

/// The media library of a page.
pub struct WebLibrary;

impl WebLibrary {
    /// The entries of a directory: none.
    pub fn browse(&self, _dir: &str) -> (r: Vec<String>)
        ensures
            r@ == Seq::<String>::empty(),
    {
        Vec::new()
    }

    /// The tracks of a playlist file: none, and no error.
    pub fn load_playlist(&self, _source: &str) -> (r: Result<Vec<Track>, String>)
        ensures
            r matches Ok(tracks) && tracks@ == Seq::<Track>::empty(),
    {
        Ok(Vec::new())
    }

    /// The tracks of a directory: none.
    pub fn scan_directory(&self, _dir: &str) -> (r: Vec<Track>)
        ensures
            r@ == Seq::<Track>::empty(),
    {
        Vec::new()
    }

    /// The metadata of a track: what its type has by default. Titles are shown from the track
    /// itself, and the player learns a track's duration while it plays.
    pub fn read_metadata<M: Default>(&self, _source: &str) -> (r: M)
        ensures
            call_ensures(M::default, (), r),
    {
        M::default()
    }

    /// The subtitles of a track: what their type has by default.
    pub fn load_subtitles<S: Default>(&self, _source: &str) -> (r: S)
        ensures
            call_ensures(S::default, (), r),
    {
        S::default()
    }

    /// The cover of a track: none.
    pub fn find_cover(&self, _source: &str) -> (r: Option<Vec<u8>>)
        ensures
            r is None,
    {
        None
    }
}

/// The settings in the browser's local storage.
pub struct LocalStorageConfig;

/// The key under which the settings are stored.
pub open spec fn storage_key() -> Seq<char> {
    "sparkplayer"@
}

/// Where the settings come from.
#[derive(Debug, PartialEq, Eq)]
pub enum ConfigSource {
    /// They are read from this text.
    Stored(String),
    /// They have their defaults.
    Default,
}

/// An item for the local storage.
#[derive(Debug, PartialEq, Eq)]
pub struct StorageItem {
    pub key: String,
    pub value: String,
}

/// The storage after a save: with the item, if there is one.
pub open spec fn storage_after(
    storage: Map<Seq<char>, Seq<char>>,
    item: Option<StorageItem>,
) -> Map<Seq<char>, Seq<char>> {
    match item {
        Some(item) => storage.insert(item.key@, item.value@),
        None => storage,
    }
}

impl LocalStorageConfig {
    /// The key under which the settings are stored.
    pub fn key(&self) -> (r: String)
        ensures
            r@ == storage_key(),
    {
        "sparkplayer".to_string()
    }

    /// Decides where the settings come from, given the stored item, if there is a storage and
    /// the item is in it.
    pub fn load(&self, item: Option<String>) -> (r: ConfigSource)
        ensures
            match item {
                Some(content) => r == ConfigSource::Stored(content),
                None => r == ConfigSource::Default,
            },
    {
        match item {
            Some(content) => ConfigSource::Stored(content),
            None => ConfigSource::Default,
        }
    }

    /// The item that stores the settings, given as text; none if there is no storage.
    pub fn save(&self, has_storage: bool, content: String) -> (r: Option<StorageItem>)
        ensures
            match r {
                Some(item) => has_storage && item.key@ == storage_key() && item.value@ == content@,
                None => !has_storage,
            },
    {
        if has_storage {
            Some(StorageItem { key: self.key(), value: content })
        } else {
            None
        }
    }
}

/// Settings that were saved are found again: what a save stores stands under the key from which
/// the settings are loaded, and no other item of the storage changes.
pub proof fn saved_config_is_found(
    storage: Map<Seq<char>, Seq<char>>,
    item: StorageItem,
    content: Seq<char>,
)
    requires
        item.key@ == storage_key(),
        item.value@ == content,
    ensures
        storage_after(storage, Some(item)).contains_key(storage_key()),
        storage_after(storage, Some(item))[storage_key()] == content,
        storage_after(storage, Some(item)).remove(storage_key()) == storage.remove(storage_key()),
{
}

} // verus!
