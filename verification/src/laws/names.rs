//! What the normalisation of stream names is for.
use crate::laws::text::{
    is_bare, is_blank, lemma_blanks, lemma_last_segment_cut, lemma_same_letters,
    lemma_trimmed_parts, same_letters,
};
use crate::names::{normalize_posix_name, normalize_windows_name, sanitized, stream_part};
use vstd::prelude::*;

verus! {

/// Whether a character is an ASCII letter, an ASCII digit, an underscore, a hyphen or a full
/// stop.
pub open spec fn is_portable(c: char) -> bool {
    ||| 'A' <= c <= 'Z'
    ||| 'a' <= c <= 'z'
    ||| '0' <= c <= '9'
    ||| c == '_' || c == '-' || c == '.'
}

/// Whether a name has at least one character, and portable ones only.
pub open spec fn is_portable_name(s: Seq<char>) -> bool {
    &&& s.len() > 0
    &&& forall|i: int| 0 <= i < s.len() ==> is_portable(#[trigger] s[i])
}

/// Whether a name holds, from `start` on, the characters of `part`, with an underscore in place
/// of each that is not portable.
pub open spec fn carries(name: Seq<char>, start: int, part: Seq<char>) -> bool {
    &&& name.len() == start + part.len()
    &&& forall|i: int|
        0 <= i < part.len() ==> name[start + i] == (if is_portable(#[trigger] part[i]) {
            part[i]
        } else {
            '_'
        })
}

/// Whether the stream's own name is what follows the cut of a text: behind a slash that leads the
/// text, else behind its last backslash, slash or colon, else all of it.
pub open spec fn is_cut(body: Seq<char>, cut: int) -> bool {
    &&& 0 <= cut <= body.len()
    &&& body.len() > 0 && body[0] == '/' ==> cut == 1
    &&& body.len() > 0 && body[0] != '/' ==> {
        &&& cut == 0 || body[cut - 1] == '\\' || body[cut - 1] == '/' || body[cut - 1] == ':'
        &&& forall|i: int|
            cut <= i < body.len() ==> #[trigger] body[i] != '\\' && body[i] != '/' && body[i]
                != ':'
    }
}

/// Every text has one cut.
pub proof fn every_text_has_a_cut(body: Seq<char>) -> (cut: int)
    ensures
        is_cut(body, cut),
    decreases body.len(),
{
    if body.len() == 0 {
        0
    } else if body[0] == '/' {
        1
    } else {
        let c = body[body.len() - 1];
        if c == '\\' || c == '/' || c == ':' {
            body.len() as int
        } else {
            let cut = every_text_has_a_cut(body.drop_last());
            if body.len() > 1 {
                assert(body.drop_last()[0] == body[0]);
                assert forall|i: int| cut <= i < body.len() implies #[trigger] body[i] != '\\'
                    && body[i] != '/' && body[i] != ':' by {
                    if i < body.len() - 1 {
                        assert(body.drop_last()[i] == body[i]);
                    }
                }
                if cut > 0 {
                    assert(body.drop_last()[cut - 1] == body[cut - 1]);
                }
            }
            cut
        }
    }
}

/// The cut is where the text is divided.
proof fn lemma_cut(body: Seq<char>, cut: int)
    requires
        is_cut(body, cut),
        body.len() > 0,
    ensures
        stream_part(body) == body.skip(cut),
{
    if body[0] == '/' {
        assert(body.drop_first() == body.skip(1));
    } else {
        lemma_last_segment_cut(body, cut);
    }
}

/// A POSIX name is a slash and the stream's own name, as it stands in the text between the outer
/// blanks, with an underscore for each character that is not portable. Where there is no such
/// name, it is that of the default stream.
pub proof fn posix_name_carries_the_stream_name(
    name: &str,
    lead: Seq<char>,
    body: Seq<char>,
    trail: Seq<char>,
    cut: int,
    r: String,
)
    requires
        call_ensures(normalize_posix_name, (name,), r),
        name@ == lead + body + trail,
        is_blank(lead),
        is_bare(body),
        is_blank(trail),
        is_cut(body, cut),
    ensures
        body.skip(cut).len() == 0 ==> r@ == "/sparkplayer_audio"@,
        body.skip(cut).len() > 0 ==> r@[0] == '/' && carries(r@, 1, body.skip(cut)),
{
    lemma_trimmed_parts(lead, body, trail);
    reveal_strlit("/");
    reveal_strlit("/sparkplayer_audio");
    reveal_strlit("sparkplayer_audio");
    if body.len() > 0 {
        lemma_cut(body, cut);
    } else {
        assert(r@ == "/sparkplayer_audio"@);
    }
}

/// A portable name is kept as it is, behind the slash.
pub proof fn posix_name_keeps_portable_names(name: &str, r: String)
    requires
        call_ensures(normalize_posix_name, (name,), r),
        is_portable_name(name@),
    ensures
        r@ == seq!['/'] + name@,
{
    let none = Seq::<char>::empty();
    assert(name@ == none + name@ + none);
    lemma_portable_is_bare(name@);
    assert(name@.skip(0) == name@);
    posix_name_carries_the_stream_name(name, none, name@, none, 0, r);
}

/// A portable name has no blanks and no separators.
proof fn lemma_portable_is_bare(s: Seq<char>)
    requires
        is_portable_name(s),
    ensures
        is_bare(s),
        is_cut(s, 0),
{
    lemma_blanks(s[0]);
    lemma_blanks(s[s.len() - 1]);
    assert(is_portable(s[0]));
    assert(is_portable(s[s.len() - 1]));
    assert forall|i: int| 0 <= i < s.len() implies #[trigger] s[i] != '\\' && s[i] != '/' && s[i]
        != ':' by {
        assert(is_portable(s[i]));
    }
}

/// Streams with different portable names have different POSIX objects.
pub proof fn portable_names_stay_apart(a: &str, b: &str, ra: String, rb: String)
    requires
        call_ensures(normalize_posix_name, (a,), ra),
        call_ensures(normalize_posix_name, (b,), rb),
        is_portable_name(a@),
        is_portable_name(b@),
        ra@ == rb@,
    ensures
        a@ == b@,
{
    posix_name_keeps_portable_names(a, ra);
    posix_name_keeps_portable_names(b, rb);
    assert(ra@.skip(1) == a@);
    assert(rb@.skip(1) == b@);
}

/// Whether a text is one of the two spellings of the default stream, in any case.
pub open spec fn spells_default(s: Seq<char>) -> bool {
    same_letters(s, "SparkPlayerAudio"@) || same_letters(s, "sparkplayer_audio"@)
}

/// Whether a text is one of the two spellings of the default stream in the session namespace, in
/// any case.
pub open spec fn spells_default_mapping(s: Seq<char>) -> bool {
    same_letters(s, "Local\\SparkPlayerAudio"@) || same_letters(s, "Local\\sparkplayer_audio"@)
}

/// A Windows name is the text between the outer blanks, if it carries a namespace. Else it is the
/// stream's own name in the session namespace, with an underscore for each character that is not
/// portable. All spellings of the default stream give one name, and so does the lack of any.
pub proof fn windows_name_carries_the_stream_name(
    name: &str,
    lead: Seq<char>,
    body: Seq<char>,
    trail: Seq<char>,
    cut: int,
    r: String,
)
    requires
        call_ensures(normalize_windows_name, (name,), r),
        name@ == lead + body + trail,
        is_blank(lead),
        is_bare(body),
        is_blank(trail),
        is_cut(body, cut),
    ensures
        ({
            let part = body.skip(cut);
            let namespaced = "Local\\"@.is_prefix_of(body) || "Global\\"@.is_prefix_of(body);
            &&& spells_default_mapping(body) ==> r@ == "Local\\SparkPlayerAudio"@
            &&& !spells_default_mapping(body) && namespaced ==> r@ == body
            &&& !namespaced && (part.len() == 0 || spells_default(part)) ==> r@
                == "Local\\SparkPlayerAudio"@
            &&& !spells_default_mapping(body) && !namespaced && part.len() > 0
                && !spells_default(part) ==> "Local\\"@.is_prefix_of(r@) && carries(r@, 6, part)
        }),
{
    lemma_trimmed_parts(lead, body, trail);
    lemma_same_letters(body, "Local\\SparkPlayerAudio"@);
    lemma_same_letters(body, "Local\\sparkplayer_audio"@);
    let part = stream_part(body);
    lemma_same_letters(part, "SparkPlayerAudio"@);
    lemma_same_letters(part, "sparkplayer_audio"@);
    reveal_strlit("Local\\");
    if body.len() > 0 {
        lemma_cut(body, cut);
        if r@ == "Local\\"@ + sanitized(part) {
            assert("Local\\"@ == r@.subrange(0, 6));
        }
    } else {
        reveal_strlit("Global\\");
        assert(same_letters("sparkplayer_audio"@, "sparkplayer_audio"@));
        assert(body.skip(cut) == body);
    }
}

/// A portable name that is not a spelling of the default stream is kept as it is, in the session
/// namespace.
pub proof fn windows_name_keeps_portable_names(name: &str, r: String)
    requires
        call_ensures(normalize_windows_name, (name,), r),
        is_portable_name(name@),
        !spells_default(name@),
    ensures
        r@ == "Local\\"@ + name@,
{
    let none = Seq::<char>::empty();
    assert(name@ == none + name@ + none);
    lemma_portable_is_bare(name@);
    assert(name@.skip(0) == name@);
    windows_name_carries_the_stream_name(name, none, name@, none, 0, r);
    reveal_strlit("Local\\");
    reveal_strlit("Global\\");
    reveal_strlit("Local\\SparkPlayerAudio");
    reveal_strlit("Local\\sparkplayer_audio");
    if "Local\\"@.is_prefix_of(name@) {
        assert("Local\\"@[5] == name@.subrange(0, 6)[5]);
        assert(is_portable(name@[5]));
    }
    if "Global\\"@.is_prefix_of(name@) {
        assert("Global\\"@[6] == name@.subrange(0, 7)[6]);
        assert(is_portable(name@[6]));
    }
    if spells_default_mapping(name@) {
        assert(is_portable(name@[5]));
        assert(name@[5] == '\\');
    }
    assert forall|i: int| 0 <= i < r@.len() implies #[trigger] r@[i] == ("Local\\"@ + name@)[i] by {
        if i < 6 {
            assert("Local\\"@[i] == r@.subrange(0, 6)[i]);
        } else {
            assert(is_portable(name@[i - 6]));
        }
    }
    assert(r@ == "Local\\"@ + name@);
}

} // verus!
