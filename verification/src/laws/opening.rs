//! What the opening of a shared audio region is for.
use crate::mapping::{
    open_context, PosixOpening, PosixRelease, PosixStage, WindowsOpening, WindowsRelease,
    WindowsStage,
};
use crate::names::{normalize_posix_name, normalize_windows_name};
use vstd::prelude::*;

verus! {

/// An error of an opening names the stream that was asked for.
pub proof fn errors_name_the_stream(name: &str, r: String)
    requires
        call_ensures(open_context, (name,), r),
    ensures
        r@ == "opening shared audio stream "@ + name@,
{
}

/// A POSIX opening begins with the creation of the object of the stream's POSIX name, in the size
/// of the header and the ring.
pub proof fn posix_opening_begins_with_creation(name: &str, r: PosixOpening, normalized: String)
    requires
        call_ensures(PosixOpening::start, (name,), r),
        call_ensures(normalize_posix_name, (name,), normalized),
    ensures
        r.name@ == normalized@,
        r.byte_len == 3_840_080,
        r.stage is Creating,
{
}

/// Whether a POSIX stage is a failure with the given message that leaves the given descriptor to
/// be given back.
pub open spec fn posix_failed(stage: PosixStage, held: Option<i32>, text: Seq<char>) -> bool {
    stage matches PosixStage::Failed { release, message } && release == held && message@ == text
}

/// A POSIX opening creates the object, sizes it and maps it, each with the descriptor that the
/// creation gave, and goes on as long as the calls succeed. A call that fails ends it with a
/// message that names the call, the object and the system's error, or that says that the name is
/// taken; the descriptor that it had got by then is what it has to give back. An opening that has
/// ended stays as it is.
pub proof fn posix_opening_goes_on_by_success(
    opening: PosixOpening,
    reply: i32,
    error_code: Option<i32>,
    error: &str,
    exists_code: i32,
    r: PosixOpening,
)
    requires
        call_ensures(
            PosixOpening::advance,
            (opening, reply, error_code, error, exists_code),
            r,
        ),
    ensures
        r.name@ == opening.name@,
        r.byte_len == opening.byte_len,
        opening.stage is Creating ==> {
            &&& reply >= 0 ==> (r.stage matches PosixStage::Sizing { fd } && fd == reply)
            &&& reply < 0 && error_code == Some(exists_code) ==> posix_failed(
                r.stage,
                None,
                "shared audio stream "@ + opening.name@ + " is already in use"@,
            )
            &&& reply < 0 && error_code != Some(exists_code) ==> posix_failed(
                r.stage,
                None,
                "shm_open"@ + " failed for "@ + opening.name@ + ": "@ + error@,
            )
        },
        opening.stage matches PosixStage::Sizing { fd } ==> {
            &&& reply == 0 ==> (r.stage matches PosixStage::Mapping { fd: same } && same == fd)
            &&& reply != 0 ==> posix_failed(
                r.stage,
                Some(fd),
                "ftruncate"@ + " failed for "@ + opening.name@ + ": "@ + error@,
            )
        },
        opening.stage matches PosixStage::Mapping { fd } ==> {
            &&& reply == 0 ==> (r.stage matches PosixStage::Mapped { fd: same } && same == fd)
            &&& reply != 0 ==> posix_failed(
                r.stage,
                Some(fd),
                "mmap"@ + " failed for "@ + opening.name@ + ": "@ + error@,
            )
        },
        opening.stage matches PosixStage::Mapped { fd } ==> (r.stage matches PosixStage::Mapped {
            fd: same,
        } && same == fd),
        opening.stage matches PosixStage::Failed { release, message } ==> posix_failed(
            r.stage,
            release,
            message@,
        ),
{
}

/// A release closes the descriptor and unlinks the name, in this order, exactly if the opening has
/// a descriptor, and unmaps the region before if it is mapped.
pub proof fn posix_release_gives_back_what_is_held(opening: &PosixOpening, r: Vec<PosixRelease>)
    requires
        call_ensures(PosixOpening::release, (opening,), r),
    ensures
        opening.stage is Creating ==> r@.len() == 0,
        opening.stage matches PosixStage::Sizing { fd } ==> r@ == seq![
            PosixRelease::Close { fd },
            PosixRelease::Unlink,
        ],
        opening.stage matches PosixStage::Mapping { fd } ==> r@ == seq![
            PosixRelease::Close { fd },
            PosixRelease::Unlink,
        ],
        opening.stage matches PosixStage::Mapped { fd } ==> r@ == seq![
            PosixRelease::Unmap,
            PosixRelease::Close { fd },
            PosixRelease::Unlink,
        ],
        opening.stage matches PosixStage::Failed { release: Some(fd), .. } ==> r@ == seq![
            PosixRelease::Close { fd },
            PosixRelease::Unlink,
        ],
        opening.stage matches PosixStage::Failed { release: None, .. } ==> r@.len() == 0,
{
}

/// A Windows opening begins with the creation of the mapping of the stream's Windows name, in the
/// size of the header and the ring, which is given in two halves.
pub proof fn windows_opening_begins_with_creation(
    name: &str,
    r: WindowsOpening,
    normalized: String,
)
    requires
        call_ensures(WindowsOpening::start, (name,), r),
        call_ensures(normalize_windows_name, (name,), normalized),
    ensures
        r.requested@ == name@,
        r.name@ == normalized@,
        r.byte_len == 3_840_080,
        r.size_high == 0,
        r.size_low == 3_840_080,
        r.stage is Creating,
{
}

/// Whether a Windows stage is a failure with the given message that leaves a handle to be given
/// back, or none.
pub open spec fn windows_failed(stage: WindowsStage, held: bool, text: Seq<char>) -> bool {
    stage matches WindowsStage::Failed { release, message } && release == held && message@ == text
}

/// A Windows opening creates the mapping and views it, and goes on as long as the calls succeed
/// and the mapping is a new one. A call that fails ends it with a message that names the call and
/// the stream as it was asked for; a mapping that was there ends it with the word that the name is
/// taken. The handle that it had got by then is what it has to give back. An opening that has
/// ended stays as it is.
pub proof fn windows_opening_goes_on_by_success(
    opening: WindowsOpening,
    got: bool,
    error_code: u32,
    exists_code: u32,
    r: WindowsOpening,
)
    requires
        call_ensures(WindowsOpening::advance, (opening, got, error_code, exists_code), r),
    ensures
        r.requested@ == opening.requested@,
        r.name@ == opening.name@,
        r.byte_len == opening.byte_len,
        r.size_high == opening.size_high,
        r.size_low == opening.size_low,
        opening.stage is Creating ==> {
            &&& got && error_code != exists_code ==> r.stage is Viewing
            &&& got && error_code == exists_code ==> windows_failed(
                r.stage,
                true,
                "shared audio stream "@ + opening.name@ + " is already in use"@,
            )
            &&& !got ==> windows_failed(
                r.stage,
                false,
                "CreateFileMappingW"@ + " failed for "@ + opening.requested@,
            )
        },
        opening.stage is Viewing ==> {
            &&& got ==> r.stage is Mapped
            &&& !got ==> windows_failed(
                r.stage,
                true,
                "MapViewOfFile"@ + " failed for "@ + opening.requested@,
            )
        },
        opening.stage is Mapped ==> r.stage is Mapped,
        opening.stage matches WindowsStage::Failed { release, message } ==> windows_failed(
            r.stage,
            release,
            message@,
        ),
{
}

/// A release closes the handle exactly if the opening has one, and unmaps the region before if it
/// is mapped.
pub proof fn windows_release_gives_back_what_is_held(
    opening: &WindowsOpening,
    r: Vec<WindowsRelease>,
)
    requires
        call_ensures(WindowsOpening::release, (opening,), r),
    ensures
        opening.stage is Creating ==> r@.len() == 0,
        opening.stage is Viewing ==> r@ == seq![WindowsRelease::Close],
        opening.stage is Mapped ==> r@ == seq![WindowsRelease::Unmap, WindowsRelease::Close],
        opening.stage matches WindowsStage::Failed { release, .. } ==> r@ == (if release {
            seq![WindowsRelease::Close]
        } else {
            Seq::empty()
        }),
{
}

} // verus!
