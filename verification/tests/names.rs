use sparkplayer::names::{normalize_posix_name, normalize_windows_name};

#[test]
fn windows_spellings_of_the_default_stream() {
    for name in [
        "",
        "   ",
        "/",
        "\\",
        "SparkPlayerAudio",
        "sparkplayer_audio",
        "SPARKPLAYER_AUDIO",
        " /sparkplayeraudio ",
        "local\\SPARKPLAYERAUDIO",
        "Local\\sparkplayer_audio",
        "C:\\streams\\SparkPlayerAudio",
    ] {
        assert_eq!(normalize_windows_name(name), "Local\\SparkPlayerAudio", "{name:?}");
    }
}

#[test]
fn windows_namespaces_are_kept() {
    assert_eq!(normalize_windows_name("\tLocal\\my stream\n"), "Local\\my stream");
    assert_eq!(normalize_windows_name("Global\\a/b"), "Global\\a/b");
    assert_eq!(normalize_windows_name("Local\\"), "Local\\");
    assert_eq!(normalize_windows_name("local\\other"), "Local\\other");
}

#[test]
fn windows_names_are_cleaned() {
    assert_eq!(normalize_windows_name("my stream"), "Local\\my_stream");
    assert_eq!(normalize_windows_name("a/b:c\\d-1.x"), "Local\\d-1.x");
    assert_eq!(normalize_windows_name("/a/b"), "Local\\a_b");
    assert_eq!(normalize_windows_name("stérèo"), "Local\\st_r_o");
}

#[test]
fn windows_names_settle_after_two_rounds() {
    let once = normalize_windows_name("sparkplayer audio");
    assert_eq!(once, "Local\\sparkplayer_audio");
    let twice = normalize_windows_name(&once);
    assert_eq!(twice, "Local\\SparkPlayerAudio");
    assert_eq!(normalize_windows_name(&twice), twice);
    for name in ["my stream", "Global\\a/b", "", "x:y"] {
        let w = normalize_windows_name(name);
        assert_eq!(normalize_windows_name(&w), w);
    }
}

#[test]
fn posix_names_begin_with_their_only_slash() {
    assert_eq!(normalize_posix_name(""), "/sparkplayer_audio");
    assert_eq!(normalize_posix_name(" \u{3000}\u{a0}"), "/sparkplayer_audio");
    assert_eq!(normalize_posix_name("/"), "/sparkplayer_audio");
    assert_eq!(normalize_posix_name("a/"), "/sparkplayer_audio");
    assert_eq!(normalize_posix_name("/my/stream"), "/my_stream");
    assert_eq!(normalize_posix_name("Local\\SparkPlayerAudio"), "/SparkPlayerAudio");
    assert_eq!(normalize_posix_name("a\0b"), "/a_b");
    assert_eq!(normalize_posix_name("//x"), "/_x");
}

#[test]
fn posix_names_are_their_own_normal_form() {
    for name in ["", "/my/stream", "a b", "x:y", "\u{85}n\u{e9}\u{2029}"] {
        let p = normalize_posix_name(name);
        assert_eq!(normalize_posix_name(&p), p);
        assert!(!p.contains('\0'));
    }
}

#[test]
fn white_space_is_that_of_the_standard_library() {
    for code in 0..0x11_0000u32 {
        if let Some(c) = char::from_u32(code) {
            assert_eq!(sparkplayer::text::white_space(c), c.is_whitespace(), "{code:x}");
        }
    }
}

#[test]
fn text_functions_agree_with_the_standard_library() {
    for s in ["", " a b ", "Local\\x", "LOCAL\\X", "a/b:c\\d", "\u{2003}\u{e9}\n", "::"] {
        let v = sparkplayer::text::chars_of(s);
        assert_eq!(v, s.chars().collect::<Vec<_>>());
        assert_eq!(sparkplayer::text::string_of(&v), s);
        assert_eq!(sparkplayer::text::string_of(&sparkplayer::text::trim(&v)), s.trim());
        let last = sparkplayer::text::after_last_separator(&v);
        assert_eq!(
            sparkplayer::text::string_of(&last),
            s.rsplit(['\\', '/', ':']).next().unwrap()
        );
        assert_eq!(
            sparkplayer::text::equals_ignoring_ascii_case(&v, "local\\x"),
            s.eq_ignore_ascii_case("local\\x")
        );
        assert_eq!(sparkplayer::text::begins_with(&v, "Local\\"), s.starts_with("Local\\"));
    }
    for n in [0, 7, 10, 99, 100, 1234567890, u64::MAX] {
        assert_eq!(sparkplayer::text::decimal_text(n), n.to_string());
    }
}
