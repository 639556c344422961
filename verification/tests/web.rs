use sparkplayer::library::{ConfigSource, LocalStorageConfig, StorageItem, WebLibrary};
use sparkplayer::manifest::{
    fetch_manifest_tracks, load_manifest, manifest_tracks, ManifestEntry, ManifestOutcome, Track,
};
use sparkplayer::page::{
    duration_wanted, map_key, pick_files, place, CellRect, CoreKey, CoreKeyEvent, FilePick,
    FirstGesture, KeyActions, KeyCode, KeyEvent, KeyPress, PickedFile,
};

fn text(s: &str) -> Option<String> {
    Some(s.to_string())
}

fn track(url: &str, title: &str) -> Track {
    Track::from_url(url.to_string(), title.to_string())
}

#[test]
fn manifest_entries_become_tracks() {
    let entries = vec![
        ManifestEntry { url: text("a.ogg"), title: text("A") },
        ManifestEntry { url: None, title: text("no url") },
        ManifestEntry { url: text("b.ogg"), title: None },
        ManifestEntry { url: None, title: None },
        ManifestEntry { url: text(""), title: text("") },
    ];
    assert_eq!(
        manifest_tracks(entries),
        vec![track("a.ogg", "A"), track("b.ogg", "b.ogg"), track("", "")]
    );
    assert_eq!(manifest_tracks(Vec::new()), vec![]);
}

#[test]
fn a_refused_manifest_lists_nothing() {
    assert_eq!(fetch_manifest_tracks(false, None), vec![]);
    assert_eq!(fetch_manifest_tracks(false, text("{\"tracks\": [{\"url\": \"a\"}]}")), vec![]);
}

#[test]
fn the_manifest_fills_the_playlist() {
    let missing = ManifestOutcome::Missing {
        status: "No manifest — use the file picker to add local files".to_string(),
    };
    assert_eq!(load_manifest(None), missing);
    assert_eq!(load_manifest(Some(Vec::new())), missing);
    let tracks: Vec<Track> = (0..12).map(|i| track(&format!("{i}"), "t")).collect();
    match load_manifest(Some(tracks)) {
        ManifestOutcome::Loaded { tracks, selected, status } => {
            assert_eq!(tracks.len(), 12);
            assert_eq!(tracks[11], track("11", "t"));
            assert_eq!(selected, 0);
            assert_eq!(status, "Loaded 12 track(s) — press any key to start");
        }
        ManifestOutcome::Missing { .. } => panic!("the tracks are lost"),
    }
}

#[test]
fn keys_are_mapped() {
    let press = |code: KeyCode, ctrl: bool| map_key(KeyEvent { code, ctrl, alt: true, shift: true });
    let core = |code: CoreKey, ctrl: bool| CoreKeyEvent { code, ctrl };
    assert_eq!(press(KeyCode::Char('q'), true), core(CoreKey::Char('q'), true));
    for (code, key) in [
        (KeyCode::Up, CoreKey::Up),
        (KeyCode::Down, CoreKey::Down),
        (KeyCode::Left, CoreKey::Left),
        (KeyCode::Right, CoreKey::Right),
        (KeyCode::PageUp, CoreKey::PageUp),
        (KeyCode::PageDown, CoreKey::PageDown),
        (KeyCode::Home, CoreKey::Home),
        (KeyCode::End, CoreKey::End),
        (KeyCode::Tab, CoreKey::Tab),
        (KeyCode::Enter, CoreKey::Enter),
        (KeyCode::Esc, CoreKey::Esc),
        (KeyCode::F(1), CoreKey::Other),
        (KeyCode::Backspace, CoreKey::Other),
        (KeyCode::Delete, CoreKey::Other),
        (KeyCode::Unidentified, CoreKey::Other),
    ] {
        assert_eq!(press(code, false), core(key, false));
    }
}

fn press(code: KeyCode, playing: Option<usize>, track_count: usize) -> KeyPress {
    let event = KeyEvent { code, ctrl: false, alt: false, shift: false };
    KeyPress { event, playing, track_count }
}

fn actions(unlock_audio: bool, play: Option<usize>, code: CoreKey) -> KeyActions {
    KeyActions { unlock_audio, play, key: CoreKeyEvent { code, ctrl: false } }
}

#[test]
fn the_first_key_is_a_gesture() {
    let mut gesture = FirstGesture::new();
    assert_eq!(
        gesture.key_pressed(press(KeyCode::Up, None, 3)),
        actions(true, Some(0), CoreKey::Up)
    );
    assert_eq!(
        gesture.key_pressed(press(KeyCode::Char('n'), None, 3)),
        actions(false, None, CoreKey::Char('n'))
    );
    assert_eq!(
        FirstGesture::new().key_pressed(press(KeyCode::Esc, Some(2), 3)),
        actions(true, None, CoreKey::Esc)
    );
}

#[test]
fn an_empty_playlist_wastes_the_gesture() {
    let mut gesture = FirstGesture::new();
    assert_eq!(
        gesture.key_pressed(press(KeyCode::F(1), None, 0)),
        actions(true, None, CoreKey::Other)
    );
    assert_eq!(
        gesture.key_pressed(press(KeyCode::Enter, None, 5)),
        actions(false, None, CoreKey::Enter)
    );
    assert_eq!(
        gesture.key_pressed(press(KeyCode::Tab, None, 5)),
        actions(false, None, CoreKey::Tab)
    );
}

#[test]
fn a_known_duration_is_kept() {
    assert!(duration_wanted::<u64>(&None));
    assert!(!duration_wanted(&Some(3)));
}

#[test]
fn picked_files_join_the_playlist() {
    let files = vec![
        None,
        Some(PickedFile { url: None, name: "lost.ogg".to_string() }),
        Some(PickedFile { url: text("blob:1"), name: "one.ogg".to_string() }),
        Some(PickedFile { url: text("blob:2"), name: "two.ogg".to_string() }),
    ];
    assert_eq!(
        pick_files(4, files),
        FilePick {
            added: vec![track("blob:1", "one.ogg"), track("blob:2", "two.ogg")],
            play: Some(4),
        }
    );
    assert_eq!(pick_files(4, vec![None]), FilePick { added: vec![], play: None });
}

#[test]
fn overlays_need_cells_and_room() {
    let cell = CellRect { x: 1, y: 2, width: 3, height: 4 };
    let term = CellRect { x: 0, y: 0, width: 80, height: 24 };
    assert_eq!(place(Some(cell), term, Some(true)), Some(cell));
    assert_eq!(place(None, term, Some(true)), None);
    assert_eq!(place(Some(cell), term, None), None);
    assert_eq!(place(Some(cell), term, Some(false)), None);
    assert_eq!(place(Some(cell), CellRect { width: 0, ..term }, Some(true)), None);
    assert_eq!(place(Some(cell), CellRect { height: 0, ..term }, Some(true)), None);
}

#[test]
fn the_web_library_finds_nothing() {
    assert_eq!(WebLibrary.browse("/music"), Vec::<String>::new());
    assert_eq!(WebLibrary.load_playlist("list.m3u"), Ok(vec![]));
    assert_eq!(WebLibrary.scan_directory("/music"), vec![]);
    assert_eq!(WebLibrary.find_cover("a.ogg"), None);
}

#[test]
fn settings_are_found_where_they_are_saved() {
    let config = LocalStorageConfig;
    let item = config.save(true, "volume=3".to_string()).unwrap();
    assert_eq!(
        item,
        StorageItem { key: "sparkplayer".to_string(), value: "volume=3".to_string() }
    );
    assert_eq!(item.key, config.key());
    assert_eq!(config.load(Some(item.value)), ConfigSource::Stored("volume=3".to_string()));
    assert_eq!(config.load(None), ConfigSource::Default);
    assert_eq!(config.save(false, String::new()), None);
}

#[test]
fn metadata_and_subtitles_are_defaults() {
    let meta: (u32, String) = WebLibrary.read_metadata("a.ogg");
    assert_eq!(meta, (0, String::new()));
    let subtitles: Vec<String> = WebLibrary.load_subtitles("a.ogg");
    assert_eq!(subtitles, Vec::<String>::new());
}
