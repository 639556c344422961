//! The opening of a shared audio region, step by step.
//!
//! The platform's calls are made by whoever drives an opening. The opening says which call
//! comes next, what each reply means, and what has to be released when a call fails.
use crate::names::{normalize_posix_name, normalize_windows_name, posix_name, windows_name};
use crate::region::{shared_byte_len, DEFAULT_CAPACITY_FRAMES, HEADER_SIZE, OUTPUT_CHANNELS};
use crate::text::push_text;
use vstd::prelude::*;

verus! {

/// The number of bytes of the region.
pub open spec fn region_bytes() -> int {
    HEADER_SIZE + DEFAULT_CAPACITY_FRAMES * OUTPUT_CHANNELS * 4
}

/// What an error of `open` is put under.
pub open spec fn open_context_text(name: Seq<char>) -> Seq<char> {
    "opening shared audio stream "@ + name
}

/// Says that another writer has the stream.
pub open spec fn in_use_text(name: Seq<char>) -> Seq<char> {
    "shared audio stream "@ + name + " is already in use"@
}

/// Says that a call failed, and with which error of the system.
pub open spec fn failed_text(call: Seq<char>, name: Seq<char>, error: Seq<char>) -> Seq<char> {
    call + " failed for "@ + name + ": "@ + error
}

/// Says that a call failed.
pub open spec fn plain_failed_text(call: Seq<char>, name: Seq<char>) -> Seq<char> {
    call + " failed for "@ + name
}

/// What an error of `open` is put under.
pub fn open_context(name: &str) -> (r: String)
    ensures
        r@ == open_context_text(name@),
{
    let mut r = "opening shared audio stream ".to_string();
    push_text(&mut r, name);
    r
}

fn in_use_message(name: &str) -> (r: String)
    ensures
        r@ == in_use_text(name@),
{
    let mut r = "shared audio stream ".to_string();
    push_text(&mut r, name);
    push_text(&mut r, " is already in use");
    r
}

fn failed_message(call: &str, name: &str, error: &str) -> (r: String)
    ensures
        r@ == failed_text(call@, name@, error@),
{
    let mut r = plain_failed_message(call, name);
    push_text(&mut r, ": ");
    push_text(&mut r, error);
    r
}

fn plain_failed_message(call: &str, name: &str) -> (r: String)
    ensures
        r@ == plain_failed_text(call@, name@),
{
    let mut r = call.to_string();
    push_text(&mut r, " failed for ");
    push_text(&mut r, name);
    r
}

/// How far the opening of a POSIX shared memory object has come.
pub enum PosixStage {
    /// `shm_open` comes next; its result is the reply.
    Creating,
    /// `ftruncate` of the descriptor comes next; its result is the reply.
    Sizing { fd: i32 },
    /// `mmap` of the descriptor comes next; the reply is zero if it gave memory.
    Mapping { fd: i32 },
    /// The region is mapped.
    Mapped { fd: i32 },
    /// A call failed. With `release`, the opening still has that descriptor and the object's
    /// name to give back.
    Failed { release: Option<i32>, message: String },
}

/// One step to give back what a POSIX opening holds.
#[derive(Clone, Copy, Debug, PartialEq, Eq)]
pub enum PosixRelease {
    /// `munmap` of the region.
    Unmap,
    /// `close` of the descriptor.
    Close { fd: i32 },
    /// `shm_unlink` of the object's name.
    Unlink,
}

/// A stage, with its text as a sequence of characters.
pub enum PosixStageView {
    Creating,
    Sizing { fd: i32 },
    Mapping { fd: i32 },
    Mapped { fd: i32 },
    Failed { release: Option<i32>, message: Seq<char> },
}

impl View for PosixStage {
    type V = PosixStageView;

    open spec fn view(&self) -> PosixStageView {
        match *self {
            PosixStage::Creating => PosixStageView::Creating,
            PosixStage::Sizing { fd } => PosixStageView::Sizing { fd },
            PosixStage::Mapping { fd } => PosixStageView::Mapping { fd },
            PosixStage::Mapped { fd } => PosixStageView::Mapped { fd },
            PosixStage::Failed { release, message } => PosixStageView::Failed {
                release,
                message: message@,
            },
        }
    }
}

impl PosixStageView {
    /// The descriptor that the opening holds and has yet to give back.
    pub open spec fn held(self) -> Option<i32> {
        match self {
            PosixStageView::Sizing { fd } => Some(fd),
            PosixStageView::Mapping { fd } => Some(fd),
            PosixStageView::Mapped { fd } => Some(fd),
            _ => None,
        }
    }

    /// The steps that give back all that the opening holds. Where it holds no descriptor, the
    /// object is not its own, and the name stays.
    pub open spec fn release_steps(self) -> Seq<PosixRelease> {
        match self {
            PosixStageView::Mapped { fd } => seq![
                PosixRelease::Unmap,
                PosixRelease::Close { fd },
                PosixRelease::Unlink,
            ],
            PosixStageView::Sizing { fd }
            | PosixStageView::Mapping { fd }
            | PosixStageView::Failed { release: Some(fd), .. } => seq![
                PosixRelease::Close { fd },
                PosixRelease::Unlink,
            ],
            _ => Seq::empty(),
        }
    }

    /// The stage after the reply to the call that this stage asks for. `exists_code` is the
    /// system's error code for a name that is taken.
    pub open spec fn after(
        self,
        name: Seq<char>,
        reply: i32,
        error_code: Option<i32>,
        error: Seq<char>,
        exists_code: i32,
    ) -> PosixStageView {
        match self {
            PosixStageView::Creating => if reply >= 0 {
                PosixStageView::Sizing { fd: reply }
            } else if error_code == Some(exists_code) {
                PosixStageView::Failed { release: None, message: in_use_text(name) }
            } else {
                PosixStageView::Failed {
                    release: None,
                    message: failed_text("shm_open"@, name, error),
                }
            },
            PosixStageView::Sizing { fd } => if reply == 0 {
                PosixStageView::Mapping { fd }
            } else {
                PosixStageView::Failed {
                    release: Some(fd),
                    message: failed_text("ftruncate"@, name, error),
                }
            },
            PosixStageView::Mapping { fd } => if reply == 0 {
                PosixStageView::Mapped { fd }
            } else {
                PosixStageView::Failed {
                    release: Some(fd),
                    message: failed_text("mmap"@, name, error),
                }
            },
            _ => self,
        }
    }
}

/// The opening of a POSIX shared memory object.
pub struct PosixOpening {
    /// The name of the object.
    pub name: String,
    /// The size that the object gets.
    pub byte_len: usize,
    pub stage: PosixStage,
}

impl PosixOpening {
    /// Begins to open the stream of the given name.
    pub fn start(name: &str) -> (r: Self)
        ensures
            r.name@ == posix_name(name@),
            r.byte_len == region_bytes(),
            r.stage@ == PosixStageView::Creating,
    {
        PosixOpening {
            name: normalize_posix_name(name),
            byte_len: shared_byte_len(),
            stage: PosixStage::Creating,
        }
    }

    /// Goes on by the reply to the call that the stage asks for, and by the system's last error
    /// at that point, which counts only if the call failed.
    pub fn advance(
        self,
        reply: i32,
        error_code: Option<i32>,
        error: &str,
        exists_code: i32,
    ) -> (r: Self)
        ensures
            r.name@ == self.name@,
            r.byte_len == self.byte_len,
            r.stage@ == self.stage@.after(self.name@, reply, error_code, error@, exists_code),
    {
        let PosixOpening { name, byte_len, stage } = self;
        let stage = match stage {
            PosixStage::Creating => {
                if reply >= 0 {
                    PosixStage::Sizing { fd: reply }
                } else {
                    let taken = match error_code {
                        Some(code) => code == exists_code,
                        None => false,
                    };
                    let message = if taken {
                        in_use_message(name.as_str())
                    } else {
                        failed_message("shm_open", name.as_str(), error)
                    };
                    PosixStage::Failed { release: None, message }
                }
            },
            PosixStage::Sizing { fd } => {
                if reply == 0 {
                    PosixStage::Mapping { fd }
                } else {
                    let message = failed_message("ftruncate", name.as_str(), error);
                    PosixStage::Failed { release: Some(fd), message }
                }
            },
            PosixStage::Mapping { fd } => {
                if reply == 0 {
                    PosixStage::Mapped { fd }
                } else {
                    let message = failed_message("mmap", name.as_str(), error);
                    PosixStage::Failed { release: Some(fd), message }
                }
            },
            PosixStage::Mapped { fd } => PosixStage::Mapped { fd },
            PosixStage::Failed { release, message } => PosixStage::Failed { release, message },
        };
        PosixOpening { name, byte_len, stage }
    }

    /// The steps that give back all that the opening holds.
    pub fn release(&self) -> (r: Vec<PosixRelease>)
        ensures
            r@ == self.stage@.release_steps(),
    {
        let mut steps: Vec<PosixRelease> = Vec::new();
        match &self.stage {
            PosixStage::Mapped { fd } => {
                steps.push(PosixRelease::Unmap);
                steps.push(PosixRelease::Close { fd: *fd });
                steps.push(PosixRelease::Unlink);
            },
            PosixStage::Sizing { fd }
            | PosixStage::Mapping { fd }
            | PosixStage::Failed { release: Some(fd), .. } => {
                steps.push(PosixRelease::Close { fd: *fd });
                steps.push(PosixRelease::Unlink);
            },
            PosixStage::Creating | PosixStage::Failed { release: None, .. } => {},
        }
        steps
    }
}

/// How far the opening of a Windows file mapping has come.
pub enum WindowsStage {
    /// `CreateFileMappingW` comes next.
    Creating,
    /// `MapViewOfFile` of the new mapping comes next.
    Viewing,
    /// The region is mapped.
    Mapped,
    /// A call failed. With `release`, the opening still has the mapping's handle to give back.
    Failed { release: bool, message: String },
}

/// One step to give back what a Windows opening holds.
#[derive(Clone, Copy, Debug, PartialEq, Eq)]
pub enum WindowsRelease {
    /// `UnmapViewOfFile` of the region.
    Unmap,
    /// `CloseHandle` of the mapping.
    Close,
}

/// A stage, with its text as a sequence of characters.
pub enum WindowsStageView {
    Creating,
    Viewing,
    Mapped,
    Failed { release: bool, message: Seq<char> },
}

impl View for WindowsStage {
    type V = WindowsStageView;

    open spec fn view(&self) -> WindowsStageView {
        match *self {
            WindowsStage::Creating => WindowsStageView::Creating,
            WindowsStage::Viewing => WindowsStageView::Viewing,
            WindowsStage::Mapped => WindowsStageView::Mapped,
            WindowsStage::Failed { release, message } => WindowsStageView::Failed {
                release,
                message: message@,
            },
        }
    }
}

impl WindowsStageView {
    /// Whether the opening holds a handle that it has yet to give back.
    pub open spec fn holds_handle(self) -> bool {
        self is Viewing || self is Mapped
    }

    /// The steps that give back all that the opening holds.
    pub open spec fn release_steps(self) -> Seq<WindowsRelease> {
        match self {
            WindowsStageView::Mapped => seq![WindowsRelease::Unmap, WindowsRelease::Close],
            WindowsStageView::Viewing | WindowsStageView::Failed { release: true, .. } => seq![
                WindowsRelease::Close,
            ],
            _ => Seq::empty(),
        }
    }

    /// The stage after the call that this stage asks for. `got` says whether the call gave a
    /// handle or an address that is not null; `exists_code` is the system's error code for a
    /// name that is taken, which it reports beside a handle of the mapping that was there.
    pub open spec fn after(
        self,
        requested: Seq<char>,
        name: Seq<char>,
        got: bool,
        error_code: u32,
        exists_code: u32,
    ) -> WindowsStageView {
        match self {
            WindowsStageView::Creating => if !got {
                WindowsStageView::Failed {
                    release: false,
                    message: plain_failed_text("CreateFileMappingW"@, requested),
                }
            } else if error_code == exists_code {
                WindowsStageView::Failed { release: true, message: in_use_text(name) }
            } else {
                WindowsStageView::Viewing
            },
            WindowsStageView::Viewing => if got {
                WindowsStageView::Mapped
            } else {
                WindowsStageView::Failed {
                    release: true,
                    message: plain_failed_text("MapViewOfFile"@, requested),
                }
            },
            _ => self,
        }
    }
}

/// The opening of a Windows file mapping.
pub struct WindowsOpening {
    /// The stream's name as it was asked for.
    pub requested: String,
    /// The name of the mapping.
    pub name: String,
    /// The size of the mapping.
    pub byte_len: usize,
    /// The upper 32 bits of the size.
    pub size_high: u32,
    /// The lower 32 bits of the size.
    pub size_low: u32,
    pub stage: WindowsStage,
}

impl WindowsOpening {
    /// Begins to open the stream of the given name.
    pub fn start(name: &str) -> (r: Self)
        ensures
            r.requested@ == name@,
            r.name@ == windows_name(name@),
            r.byte_len == region_bytes(),
            r.size_high * 0x1_0000_0000 + r.size_low == region_bytes(),
            r.stage@ == WindowsStageView::Creating,
    {
        let byte_len: usize = shared_byte_len();
        let wide: u64 = byte_len as u64;
        WindowsOpening {
            requested: name.to_string(),
            name: normalize_windows_name(name),
            byte_len,
            size_high: (wide / 0x1_0000_0000) as u32,
            size_low: (wide % 0x1_0000_0000) as u32,
            stage: WindowsStage::Creating,
        }
    }

    /// Goes on by what came of the call that the stage asks for, and by the system's last error
    /// at that point.
    pub fn advance(self, got: bool, error_code: u32, exists_code: u32) -> (r: Self)
        ensures
            r.requested@ == self.requested@,
            r.name@ == self.name@,
            r.byte_len == self.byte_len,
            r.size_high == self.size_high,
            r.size_low == self.size_low,
            r.stage@ == self.stage@.after(
                self.requested@,
                self.name@,
                got,
                error_code,
                exists_code,
            ),
    {
        let WindowsOpening { requested, name, byte_len, size_high, size_low, stage } = self;
        let stage = match stage {
            WindowsStage::Creating => {
                if !got {
                    let message = plain_failed_message("CreateFileMappingW", requested.as_str());
                    WindowsStage::Failed { release: false, message }
                } else if error_code == exists_code {
                    WindowsStage::Failed { release: true, message: in_use_message(name.as_str()) }
                } else {
                    WindowsStage::Viewing
                }
            },
            WindowsStage::Viewing => {
                if got {
                    WindowsStage::Mapped
                } else {
                    let message = plain_failed_message("MapViewOfFile", requested.as_str());
                    WindowsStage::Failed { release: true, message }
                }
            },
            WindowsStage::Mapped => WindowsStage::Mapped,
            WindowsStage::Failed { release, message } => WindowsStage::Failed { release, message },
        };
        WindowsOpening { requested, name, byte_len, size_high, size_low, stage }
    }

    /// The steps that give back all that the opening holds.
    pub fn release(&self) -> (r: Vec<WindowsRelease>)
        ensures
            r@ == self.stage@.release_steps(),
    {
        let mut steps: Vec<WindowsRelease> = Vec::new();
        match &self.stage {
            WindowsStage::Mapped => {
                steps.push(WindowsRelease::Unmap);
                steps.push(WindowsRelease::Close);
            },
            WindowsStage::Viewing | WindowsStage::Failed { release: true, .. } => {
                steps.push(WindowsRelease::Close);
            },
            WindowsStage::Creating | WindowsStage::Failed { release: false, .. } => {},
        }
        steps
    }
}

/// Whatever the system replies, a POSIX opening that goes on still holds the descriptor that it
/// held, and one that fails releases exactly that; where it held none, because the object is
/// not its own, it leaves the name alone.
pub proof fn posix_opening_keeps_or_releases(
    stage: PosixStageView,
    name: Seq<char>,
    reply: i32,
    error_code: Option<i32>,
    error: Seq<char>,
    exists_code: i32,
)
    requires
        !(stage is Failed),
    ensures
        ({
            let after = stage.after(name, reply, error_code, error, exists_code);
            match after {
                PosixStageView::Failed { release, .. } => release == stage.held(),
                _ => after.held() == (if stage is Creating {
                    Some(reply)
                } else {
                    stage.held()
                }),
            }
        }),
{
}

/// A POSIX opening whose three calls succeed ends with the region mapped from the descriptor
/// that the first of them gave.
pub proof fn posix_opening_succeeds(
    name: Seq<char>,
    fd: i32,
    error_codes: (Option<i32>, Option<i32>, Option<i32>),
    errors: (Seq<char>, Seq<char>, Seq<char>),
    exists_code: i32,
)
    requires
        fd >= 0,
    ensures
        PosixStageView::Creating.after(name, fd, error_codes.0, errors.0, exists_code).after(
            name,
            0,
            error_codes.1,
            errors.1,
            exists_code,
        ).after(name, 0, error_codes.2, errors.2, exists_code) == (PosixStageView::Mapped { fd }),
{
}

/// What a system replies to one call of a POSIX opening: the result, and its last error.
pub struct PosixReply {
    pub reply: i32,
    pub error_code: Option<i32>,
    pub error: Seq<char>,
}

/// The promise of a system's exclusive creation, where `names` are the names of the objects that
/// are there: it makes no object of a name that is taken, and says so only of such a name.
pub open spec fn creates_exclusively(
    names: Set<Seq<char>>,
    name: Seq<char>,
    r: PosixReply,
    exists_code: i32,
) -> bool {
    &&& names.contains(name) ==> r.reply < 0
    &&& r.reply < 0 && r.error_code == Some(exists_code) ==> names.contains(name)
}

/// How far an opening has come after some replies.
pub open spec fn opened(name: Seq<char>, replies: Seq<PosixReply>, exists_code: i32) -> PosixStageView
    decreases replies.len(),
{
    if replies.len() == 0 {
        PosixStageView::Creating
    } else {
        let r = replies.last();
        opened(name, replies.drop_last(), exists_code).after(
            name,
            r.reply,
            r.error_code,
            r.error,
            exists_code,
        )
    }
}

/// The names of the objects that are there after some replies to an opening: its own is among
/// them once its creation has succeeded.
pub open spec fn names_opened(
    names: Set<Seq<char>>,
    name: Seq<char>,
    replies: Seq<PosixReply>,
) -> Set<Seq<char>> {
    if replies.len() > 0 && replies.first().reply >= 0 {
        names.insert(name)
    } else {
        names
    }
}

/// The names of the objects that are there after some steps of a release.
pub open spec fn names_released(
    names: Set<Seq<char>>,
    name: Seq<char>,
    steps: Seq<PosixRelease>,
) -> Set<Seq<char>> {
    if steps.contains(PosixRelease::Unlink) {
        names.remove(name)
    } else {
        names
    }
}

/// An opening gives back a name exactly if its creation succeeded.
proof fn lemma_unlinks_own_name(name: Seq<char>, replies: Seq<PosixReply>, exists_code: i32)
    ensures
        ({
            let stage = opened(name, replies, exists_code);
            let created = replies.len() > 0 && replies.first().reply >= 0;
            &&& stage is Creating <==> replies.len() == 0
            &&& created <==> stage.held() is Some || (stage is Failed && stage->release is Some)
            &&& created <==> stage.release_steps().contains(PosixRelease::Unlink)
        }),
    decreases replies.len(),
{
    let stage = opened(name, replies, exists_code);
    let steps = stage.release_steps();
    if replies.len() > 0 {
        lemma_unlinks_own_name(name, replies.drop_last(), exists_code);
    }
    assert(steps.len() > 0 ==> steps[steps.len() - 1] == PosixRelease::Unlink);
}

/// Whatever the system replies, an opening of a free name, once it is released, leaves the names
/// as they were, be it that it failed or that its stream has been closed. While the region is
/// mapped, the name is taken.
pub proof fn posix_names_are_given_back(
    names: Set<Seq<char>>,
    name: Seq<char>,
    replies: Seq<PosixReply>,
    exists_code: i32,
)
    requires
        !names.contains(name),
    ensures
        ({
            let stage = opened(name, replies, exists_code);
            let then = names_opened(names, name, replies);
            &&& stage is Mapped ==> then.contains(name)
            &&& names_released(then, name, stage.release_steps()) == names
        }),
{
    lemma_unlinks_own_name(name, replies, exists_code);
    assert(names.insert(name).remove(name) == names);
}

/// While a stream lives, an opening under any spelling of its name is refused, at the first call.
/// It does not touch the name of the stream that lives, and where the system says that the name
/// is taken, so does the message.
pub proof fn taken_posix_name_is_refused(
    names: Set<Seq<char>>,
    living: Seq<char>,
    requested: Seq<char>,
    r: PosixReply,
    exists_code: i32,
)
    requires
        posix_name(requested) == posix_name(living),
        names.contains(posix_name(living)),
        creates_exclusively(names, posix_name(requested), r, exists_code),
    ensures
        ({
            let name = posix_name(requested);
            let stage = opened(name, seq![r], exists_code);
            &&& stage is Failed
            &&& stage.release_steps() == Seq::<PosixRelease>::empty()
            &&& names_released(
                names_opened(names, name, seq![r]),
                name,
                stage.release_steps(),
            ) == names
            &&& r.error_code == Some(exists_code) ==> stage->message == in_use_text(
                posix_name(living),
            )
        }),
{
    assert(seq![r].drop_last() == Seq::<PosixReply>::empty());
    reveal_with_fuel(opened, 2);
}

/// Once a stream is closed, its name is free: an opening under any spelling of it is no longer
/// refused because the name is taken, and one whose creation succeeds goes on.
pub proof fn closed_posix_name_is_free(
    names: Set<Seq<char>>,
    closed_name: Seq<char>,
    fd: i32,
    requested: Seq<char>,
    r: PosixReply,
    exists_code: i32,
)
    requires
        posix_name(requested) == posix_name(closed_name),
        creates_exclusively(
            names_released(
                names,
                posix_name(closed_name),
                (PosixStageView::Mapped { fd }).release_steps(),
            ),
            posix_name(requested),
            r,
            exists_code,
        ),
    ensures
        ({
            let name = posix_name(requested);
            let stage = opened(name, seq![r], exists_code);
            &&& r.reply >= 0 ==> stage == (PosixStageView::Sizing { fd: r.reply })
            &&& r.reply < 0 ==> stage == (PosixStageView::Failed {
                release: None,
                message: failed_text("shm_open"@, name, r.error),
            })
        }),
{
    assert((PosixStageView::Mapped { fd }).release_steps()[2] == PosixRelease::Unlink);
    assert(seq![r].drop_last() == Seq::<PosixReply>::empty());
    reveal_with_fuel(opened, 2);
}

/// Whatever the system replies, a Windows opening that fails closes the handle if and only if
/// the system has given it one, and one that goes on still holds it.
pub proof fn windows_opening_keeps_or_releases(
    stage: WindowsStageView,
    requested: Seq<char>,
    name: Seq<char>,
    got: bool,
    error_code: u32,
    exists_code: u32,
)
    requires
        !(stage is Failed),
    ensures
        ({
            let after = stage.after(requested, name, got, error_code, exists_code);
            match after {
                WindowsStageView::Failed { release, .. } => release == (stage.holds_handle()
                    || got),
                _ => after.holds_handle(),
            }
        }),
{
}

/// What a system replies to one call of a Windows opening: whether it gave something, and its
/// last error.
pub struct WindowsReply {
    pub got: bool,
    pub error_code: u32,
}

/// The promise of a system that creates file mappings, where `holders` is the number of handles
/// and views of the mapping of that name: beside a handle it reports that the name is taken
/// exactly if there was a mapping, which it is as long as something holds it.
pub open spec fn reports_taken(holders: nat, r: WindowsReply, exists_code: u32) -> bool {
    r.got ==> (r.error_code == exists_code <==> holders > 0)
}

/// How far an opening has come after some replies.
pub open spec fn windows_opened(
    requested: Seq<char>,
    replies: Seq<WindowsReply>,
    exists_code: u32,
) -> WindowsStageView
    decreases replies.len(),
{
    if replies.len() == 0 {
        WindowsStageView::Creating
    } else {
        let r = replies.last();
        windows_opened(requested, replies.drop_last(), exists_code).after(
            requested,
            windows_name(requested),
            r.got,
            r.error_code,
            exists_code,
        )
    }
}

/// How many handles and views of the mapping there are after some replies to an opening: each
/// call that succeeds adds one.
pub open spec fn holders_opened(
    holders: nat,
    requested: Seq<char>,
    replies: Seq<WindowsReply>,
    exists_code: u32,
) -> nat
    decreases replies.len(),
{
    if replies.len() == 0 {
        holders
    } else {
        let stage = windows_opened(requested, replies.drop_last(), exists_code);
        let before = holders_opened(holders, requested, replies.drop_last(), exists_code);
        if (stage is Creating || stage is Viewing) && replies.last().got {
            before + 1
        } else {
            before
        }
    }
}

/// How many handles and views of the mapping there are after some steps of a release: each step
/// gives back one.
pub open spec fn holders_released(holders: nat, steps: Seq<WindowsRelease>) -> int {
    holders - steps.len()
}

/// Whatever the system replies, an opening that is released gives back every handle and view that
/// it got, be it that it failed or that its stream has been closed, and no other. While the region
/// is mapped, the name is taken.
pub proof fn windows_holders_are_given_back(
    holders: nat,
    requested: Seq<char>,
    replies: Seq<WindowsReply>,
    exists_code: u32,
)
    ensures
        ({
            let stage = windows_opened(requested, replies, exists_code);
            let then = holders_opened(holders, requested, replies, exists_code);
            &&& stage is Mapped ==> then > 0
            &&& holders_released(then, stage.release_steps()) == holders
        }),
    decreases replies.len(),
{
    if replies.len() > 0 {
        windows_holders_are_given_back(holders, requested, replies.drop_last(), exists_code);
    }
}

/// While a stream lives, an opening under any spelling of its name is refused, at the first call.
/// Where the system gave it a handle of the mapping that is there, the message says that the name
/// is taken, and that handle is closed; the stream that lives keeps all that holds it.
pub proof fn taken_windows_name_is_refused(
    holders: nat,
    living: Seq<char>,
    requested: Seq<char>,
    r: WindowsReply,
    exists_code: u32,
)
    requires
        windows_name(requested) == windows_name(living),
        holders > 0,
        reports_taken(holders, r, exists_code),
    ensures
        ({
            let stage = windows_opened(requested, seq![r], exists_code);
            &&& stage == if r.got {
                WindowsStageView::Failed {
                    release: true,
                    message: in_use_text(windows_name(living)),
                }
            } else {
                WindowsStageView::Failed {
                    release: false,
                    message: plain_failed_text("CreateFileMappingW"@, requested),
                }
            }
            &&& stage.release_steps() == if r.got {
                seq![WindowsRelease::Close]
            } else {
                Seq::empty()
            }
            &&& holders_released(
                holders_opened(holders, requested, seq![r], exists_code),
                stage.release_steps(),
            ) == holders
        }),
{
    assert(seq![r].drop_last() == Seq::<WindowsReply>::empty());
    reveal_with_fuel(windows_opened, 2);
    reveal_with_fuel(holders_opened, 2);
}

/// Once a stream is closed, its name is free, if nothing else holds the mapping: an opening under
/// any spelling of it is no longer refused because the name is taken, and one whose creation
/// succeeds goes on.
pub proof fn closed_windows_name_is_free(
    closed_name: Seq<char>,
    replies: Seq<WindowsReply>,
    requested: Seq<char>,
    r: WindowsReply,
    exists_code: u32,
)
    requires
        windows_name(requested) == windows_name(closed_name),
        windows_opened(closed_name, replies, exists_code) is Mapped,
        reports_taken(
            holders_released(
                holders_opened(0, closed_name, replies, exists_code),
                windows_opened(closed_name, replies, exists_code).release_steps(),
            ) as nat,
            r,
            exists_code,
        ),
    ensures
        windows_opened(requested, seq![r], exists_code) == if r.got {
            WindowsStageView::Viewing
        } else {
            WindowsStageView::Failed {
                release: false,
                message: plain_failed_text("CreateFileMappingW"@, requested),
            }
        },
{
    windows_holders_are_given_back(0, closed_name, replies, exists_code);
    assert(seq![r].drop_last() == Seq::<WindowsReply>::empty());
    reveal_with_fuel(windows_opened, 2);
}

} // verus!
