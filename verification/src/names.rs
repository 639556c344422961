//! Names of shared audio streams.
//!
//! A user may write a stream's name in the manner of any platform. Each platform gets the
//! name in its own form: a file mapping in a Windows namespace, or a POSIX shared memory
//! object.
use crate::text::{
    after_last_separator, begins_with, chars_of, copy_range, equals_ignoring_ascii_case,
    is_separator, last_segment, lower_code, push_text, same_ignoring_ascii_case, string_of, trim,
    trimmed, trimmed_ends, unseparated_is_one_segment,
};
use vstd::prelude::*;

verus! {

/// Whether a character may stand in a stream's name as it is.
pub open spec fn is_name_char(c: char) -> bool {
    ||| 'a' <= c <= 'z'
    ||| 'A' <= c <= 'Z'
    ||| '0' <= c <= '9'
    ||| c == '_'
    ||| c == '-'
    ||| c == '.'
}

/// A character, or the underscore that stands for it in a name.
pub open spec fn name_char_for(c: char) -> char {
    if is_name_char(c) {
        c
    } else {
        '_'
    }
}

/// `raw` with an underscore for each character that may not stand in a name.
pub open spec fn sanitized(raw: Seq<char>) -> Seq<char> {
    Seq::new(raw.len(), |i: int| name_char_for(raw[i]))
}

/// The part of a trimmed name that names the stream itself: what follows a leading slash, or
/// else the last segment. An empty name asks for the default stream.
pub open spec fn stream_part(name: Seq<char>) -> Seq<char> {
    if name.len() == 0 {
        "sparkplayer_audio"@
    } else if name.first() == '/' {
        name.drop_first()
    } else {
        last_segment(name)
    }
}

/// Whether `s` is one of the two spellings of the default stream, in any case.
pub open spec fn is_default_stream(s: Seq<char>) -> bool {
    ||| same_ignoring_ascii_case(s, "SparkPlayerAudio"@)
    ||| same_ignoring_ascii_case(s, "sparkplayer_audio"@)
}

/// Whether `s` is one of the two spellings of the default stream in the session namespace.
pub open spec fn is_default_mapping(s: Seq<char>) -> bool {
    ||| same_ignoring_ascii_case(s, "Local\\SparkPlayerAudio"@)
    ||| same_ignoring_ascii_case(s, "Local\\sparkplayer_audio"@)
}

/// Whether `s` already names one of the namespaces of file mappings.
pub open spec fn has_namespace(s: Seq<char>) -> bool {
    "Local\\"@.is_prefix_of(s) || "Global\\"@.is_prefix_of(s)
}

/// The name of the Windows file mapping for a stream's name.
pub open spec fn windows_name(name: Seq<char>) -> Seq<char> {
    let t = trimmed(name);
    let raw = stream_part(t);
    if is_default_mapping(t) {
        "Local\\SparkPlayerAudio"@
    } else if has_namespace(t) {
        t
    } else if is_default_stream(raw) || raw.len() == 0 {
        "Local\\SparkPlayerAudio"@
    } else {
        "Local\\"@ + sanitized(raw)
    }
}

/// The name of the POSIX shared memory object for a stream's name.
pub open spec fn posix_name(name: Seq<char>) -> Seq<char> {
    let raw = stream_part(trimmed(name));
    if raw.len() == 0 {
        "/sparkplayer_audio"@
    } else {
        "/"@ + sanitized(raw)
    }
}

/// Tests whether a character may stand in a name.
fn name_char(c: char) -> (r: bool)
    ensures
        r == is_name_char(c),
{
    (c >= 'a' && c <= 'z') || (c >= 'A' && c <= 'Z') || (c >= '0' && c <= '9') || c == '_' || c
        == '-' || c == '.'
}

/// Appends `raw`, with an underscore for each character that may not stand in a name.
fn push_sanitized(s: &mut String, raw: &Vec<char>)
    ensures
        final(s)@ == old(s)@ + sanitized(raw@),
{
    let ghost start = s@;
    let mut i: usize = 0;
    while i < raw.len()
        invariant
            i <= raw@.len(),
            s@ == start + sanitized(raw@).take(i as int),
        decreases raw@.len() - i,
    {
        if name_char(raw[i]) {
            s.push(raw[i]);
        } else {
            s.push('_');
        }
        i = i + 1;
        assert(sanitized(raw@).take(i as int) == sanitized(raw@).take(i - 1).push(
            sanitized(raw@)[i - 1],
        ));
    }
    assert(sanitized(raw@).take(raw@.len() as int) == sanitized(raw@));
}

/// The part of a trimmed name that names the stream itself.
fn stream_part_of(name: &Vec<char>) -> (r: Vec<char>)
    ensures
        r@ == stream_part(name@),
{
    if name.len() == 0 {
        chars_of("sparkplayer_audio")
    } else if name[0] == '/' {
        let r = copy_range(name, 1, name.len());
        assert(r@ == name@.drop_first());
        r
    } else {
        after_last_separator(name)
    }
}

/// The name of the Windows file mapping for a stream's name.
///
/// A name that carries a namespace is kept; any other is reduced to its last segment, put
/// into the session namespace and freed of the characters that a name may not hold. All
/// spellings of the default stream give one name.
pub fn normalize_windows_name(name: &str) -> (r: String)
    ensures
        r@ == windows_name(name@),
{
    let bare = trim(&chars_of(name));
    if equals_ignoring_ascii_case(&bare, "Local\\SparkPlayerAudio")
        || equals_ignoring_ascii_case(&bare, "Local\\sparkplayer_audio") {
        return "Local\\SparkPlayerAudio".to_string();
    }
    if begins_with(&bare, "Local\\") || begins_with(&bare, "Global\\") {
        return string_of(&bare);
    }
    let raw = stream_part_of(&bare);
    if equals_ignoring_ascii_case(&raw, "SparkPlayerAudio") || equals_ignoring_ascii_case(
        &raw,
        "sparkplayer_audio",
    ) {
        return "Local\\SparkPlayerAudio".to_string();
    }
    let mut normalized = "Local\\".to_string();
    push_sanitized(&mut normalized, &raw);
    if raw.len() == 0 {
        push_text(&mut normalized, "SparkPlayerAudio");
        proof {
            reveal_strlit("Local\\");
            reveal_strlit("SparkPlayerAudio");
            reveal_strlit("Local\\SparkPlayerAudio");
        }
        assert(normalized@ == "Local\\SparkPlayerAudio"@);
    }
    normalized
}

/// The name of the POSIX shared memory object for a stream's name.
///
/// It begins with a slash and holds no other.
pub fn normalize_posix_name(name: &str) -> (r: String)
    ensures
        r@ == posix_name(name@),
{
    let bare = trim(&chars_of(name));
    let raw = stream_part_of(&bare);
    let mut normalized = "/".to_string();
    push_sanitized(&mut normalized, &raw);
    if raw.len() == 0 {
        push_text(&mut normalized, "sparkplayer_audio");
        proof {
            reveal_strlit("/");
            reveal_strlit("sparkplayer_audio");
            reveal_strlit("/sparkplayer_audio");
        }
        assert(normalized@ == "/sparkplayer_audio"@);
    }
    normalized
}

/// Every name of a file mapping lies in one of the two namespaces.
pub proof fn windows_name_has_namespace(name: Seq<char>)
    ensures
        has_namespace(windows_name(name)),
{
    reveal_strlit("Local\\");
    reveal_strlit("Local\\SparkPlayerAudio");
    let w = windows_name(name);
    if !has_namespace(trimmed(name)) || is_default_mapping(
        trimmed(name),
    ) {
        assert("Local\\"@ == w.subrange(0, 6));
    }
}

/// A name that carries no namespace is put into the session namespace, and holds from there
/// on only characters that may stand in a name, at least one of them.
pub proof fn windows_name_is_clean(name: Seq<char>)
    requires
        !has_namespace(trimmed(name)),
    ensures
        windows_name(name).len() > 6,
        windows_name(name).take(6) == "Local\\"@,
        forall|i: int|
            6 <= i < windows_name(name).len() ==> is_name_char(#[trigger] windows_name(name)[i]),
{
    reveal_strlit("Local\\");
    reveal_strlit("Local\\SparkPlayerAudio");
    assert("Local\\SparkPlayerAudio"@.take(6) == "Local\\"@);
    let raw = stream_part(trimmed(name));
    assert(("Local\\"@ + sanitized(raw)).take(6) == "Local\\"@);
}

/// A mapping's name is its own normal form, unless it spells the default stream otherwise
/// than the default stream's own name does: that name is the normal form then.
pub proof fn windows_name_has_normal_form(name: Seq<char>)
    ensures
        windows_name(windows_name(name)) == (if is_default_mapping(windows_name(name)) {
            "Local\\SparkPlayerAudio"@
        } else {
            windows_name(name)
        }),
{
    let w = windows_name(name);
    let t = trimmed(name);
    let raw = stream_part(t);
    lemma_default_is_default();
    windows_name_has_namespace(name);
    trimmed_ends(name);
    trimmed_ends(w);
    if !is_default_mapping(t) && has_namespace(t) {
        assert(trimmed(w) == w);
    } else {
        reveal_strlit("Local\\");
        reveal_strlit("Local\\SparkPlayerAudio");
        assert(is_name_char(w.last()));
        assert(trimmed(w) == w);
    }
}

/// Normalising twice settles every name: a third time changes nothing.
pub proof fn windows_name_settles(name: Seq<char>)
    ensures
        windows_name(windows_name(windows_name(name))) == windows_name(windows_name(name)),
{
    lemma_default_is_default();
    windows_name_has_normal_form(name);
    windows_name_has_normal_form(windows_name(name));
}

/// A POSIX name is a slash and at least one character that may stand in a name. So it holds
/// one slash and no zero character.
pub proof fn posix_name_is_clean(name: Seq<char>)
    ensures
        posix_name(name).len() > 1,
        posix_name(name)[0] == '/',
        forall|i: int|
            1 <= i < posix_name(name).len() ==> is_name_char(#[trigger] posix_name(name)[i]),
        !posix_name(name).contains('\0'),
{
    reveal_strlit("/");
    reveal_strlit("/sparkplayer_audio");
}

/// A POSIX name is its own normal form.
pub proof fn posix_name_is_idempotent(name: Seq<char>)
    ensures
        posix_name(posix_name(name)) == posix_name(name),
{
    let p = posix_name(name);
    posix_name_is_clean(name);
    trimmed_ends(p);
    assert(trimmed(p) == p);
    assert(stream_part(p) == p.drop_first());
    assert(sanitized(p.drop_first()) == p.drop_first());
    reveal_strlit("/");
    assert("/"@ + p.drop_first() == p);
}

/// Every spelling of the default stream gives one file mapping, whether it stands alone, behind
/// a slash or in the session namespace, and so does the empty name.
pub proof fn default_stream_has_one_mapping(name: Seq<char>)
    requires
        ({
            let t = trimmed(name);
            ||| t.len() == 0
            ||| is_default_stream(t)
            ||| t.first() == '/' && is_default_stream(t.drop_first())
            ||| is_default_mapping(t)
        }),
    ensures
        windows_name(name) == "Local\\SparkPlayerAudio"@,
{
    let t = trimmed(name);
    reveal_strlit("Local\\");
    reveal_strlit("Global\\");
    reveal_strlit("SparkPlayerAudio");
    reveal_strlit("sparkplayer_audio");
    if !is_default_mapping(t) {
        if t.len() > 0 && is_default_stream(t) {
            unseparated_is_one_segment(t);
        }
        if "Local\\"@.is_prefix_of(t) {
            assert("Local\\"@[0] == t.subrange(0, 6)[0]);
            assert("Local\\"@[5] == t.subrange(0, 6)[5]);
        }
        if "Global\\"@.is_prefix_of(t) {
            assert("Global\\"@[0] == t.subrange(0, 7)[0]);
        }
    }
}

/// The default stream's own name is one of its spellings.
proof fn lemma_default_is_default()
    ensures
        is_default_mapping("Local\\SparkPlayerAudio"@),
{
}

} // verus!
