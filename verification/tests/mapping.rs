use sparkplayer::mapping::{
    open_context, PosixOpening, PosixRelease, PosixStage, WindowsOpening, WindowsRelease,
    WindowsStage,
};

fn posix_failure(opening: PosixOpening) -> (Option<i32>, String) {
    match opening.stage {
        PosixStage::Failed { release, message } => (release, message),
        _ => panic!("the opening has not failed"),
    }
}

fn windows_failure(opening: WindowsOpening) -> (bool, String) {
    match opening.stage {
        WindowsStage::Failed { release, message } => (release, message),
        _ => panic!("the opening has not failed"),
    }
}

#[test]
fn posix_opening_takes_three_calls() {
    let opening = PosixOpening::start("demo");
    assert_eq!(opening.name, "/demo");
    assert_eq!(opening.byte_len, 3_840_080);
    assert!(matches!(opening.stage, PosixStage::Creating));
    let opening = opening.advance(5, None, "", 17);
    assert!(matches!(opening.stage, PosixStage::Sizing { fd: 5 }));
    let opening = opening.advance(0, Some(17), "", 17);
    assert!(matches!(opening.stage, PosixStage::Mapping { fd: 5 }));
    let opening = opening.advance(0, None, "", 17);
    assert!(matches!(opening.stage, PosixStage::Mapped { fd: 5 }));
    let opening = opening.advance(-1, None, "late", 17);
    assert!(matches!(opening.stage, PosixStage::Mapped { fd: 5 }));
}

#[test]
fn posix_failures_release_what_is_held() {
    let taken = PosixOpening::start("demo").advance(-1, Some(17), "File exists", 17);
    assert_eq!(
        posix_failure(taken),
        (None, "shared audio stream /demo is already in use".to_string())
    );
    let denied = PosixOpening::start("demo").advance(-1, Some(13), "Permission denied", 17);
    assert_eq!(
        posix_failure(denied),
        (None, "shm_open failed for /demo: Permission denied".to_string())
    );
    let full = PosixOpening::start("demo").advance(4, None, "", 17).advance(-1, Some(28), "full", 17);
    assert_eq!(posix_failure(full), (Some(4), "ftruncate failed for /demo: full".to_string()));
    let unmapped = PosixOpening::start("demo")
        .advance(4, None, "", 17)
        .advance(0, None, "", 17)
        .advance(-1, None, "no memory", 17);
    assert_eq!(posix_failure(unmapped), (Some(4), "mmap failed for /demo: no memory".to_string()));
}

#[test]
fn windows_opening_takes_two_calls() {
    let opening = WindowsOpening::start(" demo ");
    assert_eq!(opening.requested, " demo ");
    assert_eq!(opening.name, "Local\\demo");
    assert_eq!((opening.size_high, opening.size_low), (0, 3_840_080));
    let opening = opening.advance(true, 0, 183);
    assert!(matches!(opening.stage, WindowsStage::Viewing));
    let opening = opening.advance(true, 183, 183);
    assert!(matches!(opening.stage, WindowsStage::Mapped));
}

#[test]
fn windows_failures_close_the_handle() {
    assert_eq!(
        windows_failure(WindowsOpening::start("demo").advance(false, 5, 183)),
        (false, "CreateFileMappingW failed for demo".to_string())
    );
    assert_eq!(
        windows_failure(WindowsOpening::start("demo").advance(true, 183, 183)),
        (true, "shared audio stream Local\\demo is already in use".to_string())
    );
    assert_eq!(
        windows_failure(WindowsOpening::start("demo").advance(true, 0, 183).advance(false, 8, 183)),
        (true, "MapViewOfFile failed for demo".to_string())
    );
}

#[test]
fn errors_of_open_have_a_context() {
    assert_eq!(open_context(" x"), "opening shared audio stream  x");
}

#[test]
fn posix_releases_give_back_what_is_held() {
    let opening = PosixOpening::start("demo");
    assert_eq!(opening.release(), vec![]);
    let opening = opening.advance(5, None, "", 17);
    assert_eq!(opening.release(), vec![PosixRelease::Close { fd: 5 }, PosixRelease::Unlink]);
    let opening = opening.advance(0, None, "", 17);
    assert_eq!(opening.release(), vec![PosixRelease::Close { fd: 5 }, PosixRelease::Unlink]);
    let opening = opening.advance(0, None, "", 17);
    assert_eq!(
        opening.release(),
        vec![PosixRelease::Unmap, PosixRelease::Close { fd: 5 }, PosixRelease::Unlink]
    );
    let full = PosixOpening::start("demo").advance(4, None, "", 17).advance(-1, None, "full", 17);
    assert_eq!(full.release(), vec![PosixRelease::Close { fd: 4 }, PosixRelease::Unlink]);
}

#[test]
fn a_taken_posix_name_is_left_alone() {
    let living = PosixOpening::start("demo");
    let other = PosixOpening::start(" /demo ");
    assert_eq!(other.name, living.name);
    let refused = other.advance(-1, Some(17), "File exists", 17);
    assert_eq!(refused.release(), vec![]);
    let again = PosixOpening::start("demo").advance(3, None, "", 17);
    assert!(matches!(again.stage, PosixStage::Sizing { fd: 3 }));
}

#[test]
fn windows_releases_give_back_what_is_held() {
    let opening = WindowsOpening::start("demo");
    assert_eq!(opening.release(), vec![]);
    let opening = opening.advance(true, 0, 183);
    assert_eq!(opening.release(), vec![WindowsRelease::Close]);
    let opening = opening.advance(true, 0, 183);
    assert_eq!(opening.release(), vec![WindowsRelease::Unmap, WindowsRelease::Close]);
    let taken = WindowsOpening::start("demo").advance(true, 183, 183);
    assert_eq!(taken.release(), vec![WindowsRelease::Close]);
    assert_eq!(WindowsOpening::start("demo").advance(false, 5, 183).release(), vec![]);
}

#[test]
fn a_taken_windows_name_is_left_alone() {
    let living = WindowsOpening::start("/sparkplayer_audio").advance(true, 0, 183).advance(true, 0, 183);
    let other = WindowsOpening::start("SparkPlayerAudio");
    assert_eq!(other.name, living.name);
    let refused = other.advance(true, 183, 183);
    assert_eq!(refused.release(), vec![WindowsRelease::Close]);
    assert_eq!(
        windows_failure(refused).1,
        "shared audio stream Local\\SparkPlayerAudio is already in use"
    );
    assert_eq!(living.release(), vec![WindowsRelease::Unmap, WindowsRelease::Close]);
    let again = WindowsOpening::start("SparkPlayerAudio").advance(true, 0, 183);
    assert!(matches!(again.stage, WindowsStage::Viewing));
}
