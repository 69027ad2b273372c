//! The change-set: what a run wrote, and sanitized promotion to the host.
//!
//! The guest exports its overlay upper layer as a tar archive. Everything
//! here treats that archive as adversarial input: entry paths are
//! validated component-wise, setuid/setgid bits are stripped, symlink
//! entries whose targets escape the destination are refused, and no
//! ownership is ever restored.
use vstd::prelude::*;

use crate::path::{
    comps_view, components_of, drop_cur, is_absolute, path_components, push_path, push_segment,
    render, render_components, without_cur, CompV, PathComponent,
};
use crate::text::{chars_eq, chars_of, push_str, string_from, string_from_chars};

verus! {

/// Mode bits used when an archive header carries none: `rw-r--r--`,
/// never executable, never setuid.
pub const FALLBACK_MODE: u32 = 0o644;

/// Device number assumed when a char-device header carries none: any
/// nonzero value classifies the entry as a real device, never as a
/// whiteout deletion.
pub const NON_WHITEOUT_DEVICE: u32 = 1;

/// One reported change, relative to the worktree root.
#[derive(Debug, Clone, PartialEq, Eq)]
pub enum Change {
    /// A file that did not exist in the worktree.
    Added { path: String, mode: u32 },
    /// A file that exists in the worktree with different content or mode.
    Modified { path: String, mode: u32 },
    /// A file or directory the run deleted (overlay whiteout).
    Deleted { path: String },
    /// A directory that did not exist in the worktree.
    DirAdded { path: String },
    /// A symlink the run created or replaced; the target is validated
    /// only at promotion time.
    Symlink { path: String, target: String },
}

/// The mathematical form of a [`Change`].
pub enum ChangeV {
    Added { path: Seq<char>, mode: u32 },
    Modified { path: Seq<char>, mode: u32 },
    Deleted { path: Seq<char> },
    DirAdded { path: Seq<char> },
    Symlink { path: Seq<char>, target: Seq<char> },
}

impl View for Change {
    type V = ChangeV;

    open spec fn view(&self) -> ChangeV {
        match self {
            Change::Added { path, mode } => ChangeV::Added { path: path@, mode: *mode },
            Change::Modified { path, mode } => ChangeV::Modified { path: path@, mode: *mode },
            Change::Deleted { path } => ChangeV::Deleted { path: path@ },
            Change::DirAdded { path } => ChangeV::DirAdded { path: path@ },
            Change::Symlink { path, target } => ChangeV::Symlink {
                path: path@,
                target: target@,
            },
        }
    }
}

/// The path a change is about.
pub open spec fn change_path(c: ChangeV) -> Seq<char> {
    match c {
        ChangeV::Added { path, .. } => path,
        ChangeV::Modified { path, .. } => path,
        ChangeV::Deleted { path } => path,
        ChangeV::DirAdded { path } => path,
        ChangeV::Symlink { path, .. } => path,
    }
}

impl Change {
    /// The changed path, relative to the worktree root.
    pub fn path(&self) -> (r: &String)
        ensures
            r@ == change_path(self@),
    {
        match self {
            Change::Added { path, .. } => path,
            Change::Modified { path, .. } => path,
            Change::Deleted { path } => path,
            Change::DirAdded { path } => path,
            Change::Symlink { path, .. } => path,
        }
    }
}

/// A copy of a change.
pub fn copy_change(c: &Change) -> (r: Change)
    ensures
        r@ == c@,
{
    match c {
        Change::Added { path, mode } => Change::Added { path: path.clone(), mode: *mode },
        Change::Modified { path, mode } => Change::Modified { path: path.clone(), mode: *mode },
        Change::Deleted { path } => Change::Deleted { path: path.clone() },
        Change::DirAdded { path } => Change::DirAdded { path: path.clone() },
        Change::Symlink { path, target } => Change::Symlink {
            path: path.clone(),
            target: target.clone(),
        },
    }
}

/// Why an archive entry is outside what promotion supports.
#[derive(Debug, Clone, PartialEq, Eq)]
pub enum UnsupportedKind {
    /// Non-whiteout character device.
    CharDevice,
    /// Symlink entry with no target recorded.
    SymlinkWithoutTarget,
    /// Any other entry type, by the name of the archive's entry type.
    EntryType(String),
}

/// The mathematical form of an [`UnsupportedKind`].
pub enum UnsupportedV {
    CharDevice,
    SymlinkWithoutTarget,
    EntryType(Seq<char>),
}

impl View for UnsupportedKind {
    type V = UnsupportedV;

    open spec fn view(&self) -> UnsupportedV {
        match self {
            UnsupportedKind::CharDevice => UnsupportedV::CharDevice,
            UnsupportedKind::SymlinkWithoutTarget => UnsupportedV::SymlinkWithoutTarget,
            UnsupportedKind::EntryType(n) => UnsupportedV::EntryType(n@),
        }
    }
}

/// The text describing an unsupported kind.
pub open spec fn unsupported_text(k: UnsupportedV) -> Seq<char> {
    match k {
        UnsupportedV::CharDevice => "char device"@,
        UnsupportedV::SymlinkWithoutTarget => "symlink without target"@,
        UnsupportedV::EntryType(name) => "unsupported entry type "@ + name,
    }
}

impl UnsupportedKind {
    /// The text describing this kind.
    pub fn message(&self) -> (r: String)
        ensures
            r@ == unsupported_text(self@),
    {
        match self {
            UnsupportedKind::CharDevice => string_from("char device"),
            UnsupportedKind::SymlinkWithoutTarget => string_from("symlink without target"),
            UnsupportedKind::EntryType(name) => {
                let mut s = string_from("unsupported entry type ");
                push_str(&mut s, name.as_str());
                s
            },
        }
    }
}

/// A copy of an unsupported kind.
pub fn copy_unsupported(k: &UnsupportedKind) -> (r: UnsupportedKind)
    ensures
        r@ == k@,
{
    match k {
        UnsupportedKind::CharDevice => UnsupportedKind::CharDevice,
        UnsupportedKind::SymlinkWithoutTarget => UnsupportedKind::SymlinkWithoutTarget,
        UnsupportedKind::EntryType(n) => UnsupportedKind::EntryType(n.clone()),
    }
}

/// Why a promotion entry was refused. The variants that follow a failed
/// filesystem operation carry the operating system's description of the
/// failure, which the message itself never repeats.
#[derive(Debug, Clone, PartialEq, Eq)]
pub enum RejectReason {
    /// The archive entry's type is outside what promotion supports.
    Unsupported(UnsupportedKind),
    /// The entry path is absolute.
    AbsolutePath,
    /// The entry path contains `..`.
    ParentEscape,
    /// The entry path traverses a symlink component inside the
    /// destination; carries the offending component's path.
    SymlinkComponent(String),
    /// The entry path has a non-normal component.
    NonNormalComponent,
    /// The symlink entry's target is absolute.
    SymlinkTargetAbsolute,
    /// The symlink entry's target lexically escapes the destination.
    SymlinkTargetEscapes,
    /// The symlink entry's target has a non-normal component.
    SymlinkTargetNonNormal,
    /// A deletion entry whose target does not exist in the destination.
    DeletionTargetMissing,
    /// Removing a deletion entry's target failed.
    DeleteFailed(String),
    /// Creating a directory entry failed.
    MkdirFailed(String),
    /// Creating a file entry's parent directory failed.
    MkdirParentFailed(String),
    /// Writing a symlink entry failed.
    SymlinkFailed(String),
    /// Writing a file entry failed.
    WriteFailed(String),
}

/// The mathematical form of a [`RejectReason`].
pub enum RejectV {
    Unsupported(UnsupportedV),
    AbsolutePath,
    ParentEscape,
    SymlinkComponent(Seq<char>),
    NonNormalComponent,
    SymlinkTargetAbsolute,
    SymlinkTargetEscapes,
    SymlinkTargetNonNormal,
    DeletionTargetMissing,
    DeleteFailed(Seq<char>),
    MkdirFailed(Seq<char>),
    MkdirParentFailed(Seq<char>),
    SymlinkFailed(Seq<char>),
    WriteFailed(Seq<char>),
}

impl View for RejectReason {
    type V = RejectV;

    open spec fn view(&self) -> RejectV {
        match self {
            RejectReason::Unsupported(k) => RejectV::Unsupported(k@),
            RejectReason::AbsolutePath => RejectV::AbsolutePath,
            RejectReason::ParentEscape => RejectV::ParentEscape,
            RejectReason::SymlinkComponent(p) => RejectV::SymlinkComponent(p@),
            RejectReason::NonNormalComponent => RejectV::NonNormalComponent,
            RejectReason::SymlinkTargetAbsolute => RejectV::SymlinkTargetAbsolute,
            RejectReason::SymlinkTargetEscapes => RejectV::SymlinkTargetEscapes,
            RejectReason::SymlinkTargetNonNormal => RejectV::SymlinkTargetNonNormal,
            RejectReason::DeletionTargetMissing => RejectV::DeletionTargetMissing,
            RejectReason::DeleteFailed(e) => RejectV::DeleteFailed(e@),
            RejectReason::MkdirFailed(e) => RejectV::MkdirFailed(e@),
            RejectReason::MkdirParentFailed(e) => RejectV::MkdirParentFailed(e@),
            RejectReason::SymlinkFailed(e) => RejectV::SymlinkFailed(e@),
            RejectReason::WriteFailed(e) => RejectV::WriteFailed(e@),
        }
    }
}

/// A copy of a refusal.
pub fn copy_reject(r: &RejectReason) -> (c: RejectReason)
    ensures
        c@ == r@,
{
    match r {
        RejectReason::Unsupported(k) => RejectReason::Unsupported(copy_unsupported(k)),
        RejectReason::AbsolutePath => RejectReason::AbsolutePath,
        RejectReason::ParentEscape => RejectReason::ParentEscape,
        RejectReason::SymlinkComponent(p) => RejectReason::SymlinkComponent(p.clone()),
        RejectReason::NonNormalComponent => RejectReason::NonNormalComponent,
        RejectReason::SymlinkTargetAbsolute => RejectReason::SymlinkTargetAbsolute,
        RejectReason::SymlinkTargetEscapes => RejectReason::SymlinkTargetEscapes,
        RejectReason::SymlinkTargetNonNormal => RejectReason::SymlinkTargetNonNormal,
        RejectReason::DeletionTargetMissing => RejectReason::DeletionTargetMissing,
        RejectReason::DeleteFailed(e) => RejectReason::DeleteFailed(e.clone()),
        RejectReason::MkdirFailed(e) => RejectReason::MkdirFailed(e.clone()),
        RejectReason::MkdirParentFailed(e) => RejectReason::MkdirParentFailed(e.clone()),
        RejectReason::SymlinkFailed(e) => RejectReason::SymlinkFailed(e.clone()),
        RejectReason::WriteFailed(e) => RejectReason::WriteFailed(e.clone()),
    }
}

/// The text describing a refusal; a filesystem failure's own
/// description is never part of it.
pub open spec fn reject_text(r: RejectV) -> Seq<char> {
    match r {
        RejectV::Unsupported(k) => unsupported_text(k),
        RejectV::AbsolutePath => "absolute path"@,
        RejectV::ParentEscape => "path contains .."@,
        RejectV::SymlinkComponent(at) => "path traverses symlink component "@ + at,
        RejectV::NonNormalComponent => "non-normal path component"@,
        RejectV::SymlinkTargetAbsolute => "symlink target is absolute"@,
        RejectV::SymlinkTargetEscapes => "symlink target escapes destination"@,
        RejectV::SymlinkTargetNonNormal => "symlink target has non-normal component"@,
        RejectV::DeletionTargetMissing => "deletion target not found"@,
        RejectV::DeleteFailed(_) => "delete failed"@,
        RejectV::MkdirFailed(_) => "mkdir failed"@,
        RejectV::MkdirParentFailed(_) => "mkdir parent failed"@,
        RejectV::SymlinkFailed(_) => "symlink failed"@,
        RejectV::WriteFailed(_) => "write failed"@,
    }
}

/// The filesystem failure behind a refusal, when there is one.
pub open spec fn reject_cause(r: RejectV) -> Option<Seq<char>> {
    match r {
        RejectV::DeleteFailed(e) => Some(e),
        RejectV::MkdirFailed(e) => Some(e),
        RejectV::MkdirParentFailed(e) => Some(e),
        RejectV::SymlinkFailed(e) => Some(e),
        RejectV::WriteFailed(e) => Some(e),
        _ => None,
    }
}

impl RejectReason {
    /// The text describing this refusal.
    pub fn message(&self) -> (r: String)
        ensures
            r@ == reject_text(self@),
    {
        match self {
            RejectReason::Unsupported(k) => k.message(),
            RejectReason::AbsolutePath => string_from("absolute path"),
            RejectReason::ParentEscape => string_from("path contains .."),
            RejectReason::SymlinkComponent(at) => {
                let mut s = string_from("path traverses symlink component ");
                push_str(&mut s, at.as_str());
                s
            },
            RejectReason::NonNormalComponent => string_from("non-normal path component"),
            RejectReason::SymlinkTargetAbsolute => string_from("symlink target is absolute"),
            RejectReason::SymlinkTargetEscapes => string_from("symlink target escapes destination"),
            RejectReason::SymlinkTargetNonNormal => string_from(
                "symlink target has non-normal component",
            ),
            RejectReason::DeletionTargetMissing => string_from("deletion target not found"),
            RejectReason::DeleteFailed(_) => string_from("delete failed"),
            RejectReason::MkdirFailed(_) => string_from("mkdir failed"),
            RejectReason::MkdirParentFailed(_) => string_from("mkdir parent failed"),
            RejectReason::SymlinkFailed(_) => string_from("symlink failed"),
            RejectReason::WriteFailed(_) => string_from("write failed"),
        }
    }

    /// The filesystem failure behind this refusal, when there is one.
    pub fn cause(&self) -> (r: Option<&String>)
        ensures
            r matches Some(e) ==> reject_cause(self@) == Some(e@),
            r is None ==> reject_cause(self@) is None,
    {
        match self {
            RejectReason::DeleteFailed(e) => Some(e),
            RejectReason::MkdirFailed(e) => Some(e),
            RejectReason::MkdirParentFailed(e) => Some(e),
            RejectReason::SymlinkFailed(e) => Some(e),
            RejectReason::WriteFailed(e) => Some(e),
            _ => None,
        }
    }
}

// ── Entry paths ─────────────────────────────────────────────────────────────

/// The normalised form of an archive entry path: its components without
/// `.`, pushed back together; `None` when nothing is left.
pub open spec fn normalized_entry(p: Seq<char>) -> Option<Seq<char>> {
    let cs = drop_cur(path_components(p));
    if cs.len() == 0 {
        None
    } else {
        Some(render(cs))
    }
}

/// Normalise an archive entry path: strip `.` components (the leading
/// `./` in particular); `None` for `.` itself or an empty path.
pub fn normalize_entry_path(p: &str) -> (r: Option<String>)
    ensures
        r matches Some(s) ==> normalized_entry(p@) == Some(s@),
        r is None ==> normalized_entry(p@) is None,
{
    let cs = components_of(p);
    let cleaned = without_cur(&cs);
    if cleaned.len() == 0 {
        None
    } else {
        let text = render_components(&cleaned);
        Some(string_from_chars(&text))
    }
}

// ── Promotion paths ─────────────────────────────────────────────────────────

/// The verdict on the components of a promotion path from position `i`
/// on, `probe` being the destination path built so far: a `..` or a
/// non-normal component is refused, and so is an intermediate component
/// whose path in the destination is a symlink.
pub open spec fn dest_walk(cs: Seq<CompV>, i: int, probe: Seq<char>, links: Seq<Seq<char>>) -> Result<
    (),
    RejectV,
>
    decreases cs.len() - i,
{
    if i < 0 || i >= cs.len() {
        Ok(())
    } else {
        match cs[i] {
            CompV::Normal(seg) => {
                let p = push_path(probe, seg);
                if i != cs.len() - 1 && links.contains(p) {
                    Err(RejectV::SymlinkComponent(p))
                } else {
                    dest_walk(cs, i + 1, p, links)
                }
            },
            CompV::Parent => Err(RejectV::ParentEscape),
            CompV::Cur => dest_walk(cs, i + 1, probe, links),
            CompV::Root => Err(RejectV::NonNormalComponent),
        }
    }
}

/// The verdict on promoting an entry at `rel` into `dest`, where `links`
/// are the paths in the destination that are symlinks.
pub open spec fn dest_verdict(dest: Seq<char>, rel: Seq<char>, links: Seq<Seq<char>>) -> Result<
    (),
    RejectV,
> {
    if is_absolute(rel) {
        Err(RejectV::AbsolutePath)
    } else {
        dest_walk(path_components(rel), 0, dest, links)
    }
}

/// The destination path built from the first `k` components of `cs`.
pub open spec fn probe_at(cs: Seq<CompV>, dest: Seq<char>, k: int) -> Seq<char>
    decreases k,
{
    if k <= 0 {
        dest
    } else {
        let p = probe_at(cs, dest, k - 1);
        match cs[k - 1] {
            CompV::Normal(seg) => push_path(p, seg),
            _ => p,
        }
    }
}

/// The views of a vector of strings.
pub open spec fn strings_view(v: Seq<String>) -> Seq<Seq<char>> {
    v.map_values(|s: String| s@)
}

/// Whether `p` is one of `links`.
fn contains_path(links: &Vec<String>, p: &Vec<char>) -> (r: bool)
    ensures
        r == strings_view(links@).contains(p@),
{
    let mut i: usize = 0;
    while i < links.len()
        invariant
            i <= links.len(),
            forall|j: int| 0 <= j < i ==> strings_view(links@)[j] != p@,
        decreases links.len() - i,
    {
        let l = chars_of(links[i].as_str());
        if chars_eq(&l, p) {
            proof {
                assert(strings_view(links@)[i as int] == p@);
            }
            return true;
        }
        i = i + 1;
    }
    false
}

/// The destination paths that promoting an entry at `rel` would pass
/// through, one per component of `rel`: the paths whose symlink status
/// [`validate_dest_path`] needs.
pub fn dest_probes(dest: &str, rel: &str) -> (r: Vec<String>)
    ensures
        r@.len() == path_components(rel@).len(),
        forall|k: int|
            0 <= k < r@.len() ==> r@[k]@ == probe_at(path_components(rel@), dest@, k + 1),
{
    let cs = components_of(rel);
    let ghost cv = comps_view(cs@);
    let mut probe = chars_of(dest);
    let mut out: Vec<String> = Vec::new();
    let mut i: usize = 0;
    while i < cs.len()
        invariant
            i <= cs.len(),
            cv == comps_view(cs@),
            cv == path_components(rel@),
            probe@ == probe_at(cv, dest@, i as int),
            out@.len() == i,
            forall|k: int| 0 <= k < i ==> out@[k]@ == probe_at(cv, dest@, k + 1),
        decreases cs.len() - i,
    {
        match &cs[i] {
            PathComponent::Normal(seg) => {
                push_segment(&mut probe, seg);
            },
            _ => {},
        }
        out.push(string_from_chars(&probe));
        i = i + 1;
    }
    out
}

/// Component-wise validation of a promotion path: relative, no `..`, and
/// no intermediate component that is a symlink in the destination
/// (`links` lists the destination paths that are symlinks).
pub fn validate_dest_path(dest: &str, rel: &str, links: &Vec<String>) -> (r: Result<
    (),
    RejectReason,
>)
    ensures
        r matches Err(e) ==> dest_verdict(dest@, rel@, strings_view(links@)) == Err::<(), RejectV>(
            e@,
        ),
        r is Ok ==> dest_verdict(dest@, rel@, strings_view(links@)) is Ok,
{
    let relv = chars_of(rel);
    if relv.len() > 0 && relv[0] == '/' {
        return Err(RejectReason::AbsolutePath);
    }
    let cs = components_of(rel);
    let ghost cv = comps_view(cs@);
    let ghost lv = strings_view(links@);
    let mut probe = chars_of(dest);
    let mut i: usize = 0;
    while i < cs.len()
        invariant
            i <= cs.len(),
            cv == comps_view(cs@),
            cv == path_components(rel@),
            lv == strings_view(links@),
            !is_absolute(rel@),
            dest_walk(cv, i as int, probe@, lv) == dest_verdict(dest@, rel@, lv),
        decreases cs.len() - i,
    {
        match &cs[i] {
            PathComponent::Normal(seg) => {
                push_segment(&mut probe, seg);
                if i != cs.len() - 1 && contains_path(links, &probe) {
                    return Err(RejectReason::SymlinkComponent(string_from_chars(&probe)));
                }
            },
            PathComponent::ParentDir => {
                return Err(RejectReason::ParentEscape);
            },
            PathComponent::CurDir => {},
            PathComponent::RootDir => {
                return Err(RejectReason::NonNormalComponent);
            },
        }
        i = i + 1;
    }
    Ok(())
}

/// The verdict on a symlink target's components from position `i` on,
/// `depth` being how many directories deep inside the destination the
/// resolution currently stands.
pub open spec fn target_walk(cs: Seq<CompV>, i: int, depth: int) -> Result<(), RejectV>
    decreases cs.len() - i,
{
    if i < 0 || i >= cs.len() {
        Ok(())
    } else {
        match cs[i] {
            CompV::Parent => if depth <= 0 {
                Err(RejectV::SymlinkTargetEscapes)
            } else {
                target_walk(cs, i + 1, depth - 1)
            },
            CompV::Normal(_) => target_walk(cs, i + 1, depth + 1),
            CompV::Cur => target_walk(cs, i + 1, depth),
            CompV::Root => Err(RejectV::SymlinkTargetNonNormal),
        }
    }
}

/// How many directories deep the parent of an entry at `rel` sits.
pub open spec fn parent_depth(rel: Seq<char>) -> int {
    let n = path_components(rel).len();
    if n == 0 {
        0
    } else {
        n - 1
    }
}

/// The verdict on a symlink at `rel` pointing to `target`: absolute
/// targets and targets that lexically climb out of the destination are
/// refused.
pub open spec fn target_verdict(rel: Seq<char>, target: Seq<char>) -> Result<(), RejectV> {
    if is_absolute(target) {
        Err(RejectV::SymlinkTargetAbsolute)
    } else {
        target_walk(path_components(target), 0, parent_depth(rel))
    }
}

/// A promoted symlink may not point outside the destination tree: its
/// target is resolved lexically from the link's parent directory.
pub fn validate_symlink_target(rel: &str, target: &str) -> (r: Result<(), RejectReason>)
    ensures
        r matches Err(e) ==> target_verdict(rel@, target@) == Err::<(), RejectV>(e@),
        r is Ok ==> target_verdict(rel@, target@) is Ok,
{
    let tv = chars_of(target);
    if tv.len() > 0 && tv[0] == '/' {
        return Err(RejectReason::SymlinkTargetAbsolute);
    }
    let rel_cs = components_of(rel);
    let mut depth: u128 = if rel_cs.len() == 0 {
        0
    } else {
        (rel_cs.len() - 1) as u128
    };
    let cs = components_of(target);
    let ghost cv = comps_view(cs@);
    let mut i: usize = 0;
    proof {
        assert(rel_cs@.len() == path_components(rel@).len());
    }
    while i < cs.len()
        invariant
            i <= cs.len(),
            cv == comps_view(cs@),
            cv == path_components(target@),
            !is_absolute(target@),
            depth <= parent_depth(rel@) + i,
            parent_depth(rel@) < 0x1_0000_0000_0000_0000,
            target_walk(cv, i as int, depth as int) == target_verdict(rel@, target@),
        decreases cs.len() - i,
    {
        match &cs[i] {
            PathComponent::ParentDir => {
                if depth == 0 {
                    return Err(RejectReason::SymlinkTargetEscapes);
                }
                depth = depth - 1;
            },
            PathComponent::Normal(_) => {
                depth = depth + 1;
            },
            PathComponent::CurDir => {},
            PathComponent::RootDir => {
                return Err(RejectReason::SymlinkTargetNonNormal);
            },
        }
        i = i + 1;
    }
    Ok(())
}

// ── Reading the archive ─────────────────────────────────────────────────────

/// The type of one archive entry, as its header records it.
#[derive(Debug, Clone, PartialEq, Eq)]
pub enum ArchiveKind {
    /// A character device with its device numbers, where recorded.
    Char { major: Option<u32>, minor: Option<u32> },
    /// A directory.
    Directory,
    /// A regular file.
    Regular,
    /// A symlink with its target, where recorded.
    Symlink { target: Option<String> },
    /// Any other entry type, by its name.
    Other(String),
}

/// One archive entry, with what the worktree holds at its path.
#[derive(Debug, Clone, PartialEq, Eq)]
pub struct ArchiveEntry {
    /// The entry path exactly as recorded.
    pub path: String,
    /// The entry type.
    pub kind: ArchiveKind,
    /// The mode bits, where the header carries them.
    pub mode: Option<u32>,
    /// Whether the worktree holds a directory at the normalised path.
    pub host_is_dir: bool,
    /// Whether the worktree holds a regular file at the normalised path.
    pub host_is_file: bool,
    /// Whether that file has the entry's exact content and mode bits.
    pub same_as_host: bool,
}

/// What one archive entry contributes to a change-set.
pub enum ScanV {
    /// Nothing: the entry is `.`, a copied-up parent directory, or a
    /// copy-up artifact identical to the worktree's file.
    Skip,
    /// A change.
    Keep(ChangeV),
    /// An entry promotion does not support.
    Refuse(Seq<char>, UnsupportedV),
}

/// The unwrapped value of an optional number, or a default.
pub open spec fn or_default(o: Option<u32>, d: u32) -> u32 {
    match o {
        Some(v) => v,
        None => d,
    }
}

/// What the archive entry `e` contributes: a char device numbered 0:0 is a
/// whiteout (deletion); directories the worktree already has are copied-up
/// parents; a regular file is Modified when the worktree has a file there
/// that differs, Added when it has none, and nothing when it is identical.
pub open spec fn scan_entry(e: ArchiveEntry) -> ScanV {
    match normalized_entry(e.path@) {
        None => ScanV::Skip,
        Some(rel) => match e.kind {
            ArchiveKind::Char { major, minor } => if or_default(major, NON_WHITEOUT_DEVICE) == 0
                && or_default(minor, NON_WHITEOUT_DEVICE) == 0 {
                ScanV::Keep(ChangeV::Deleted { path: rel })
            } else {
                ScanV::Refuse(rel, UnsupportedV::CharDevice)
            },
            ArchiveKind::Directory => if e.host_is_dir {
                ScanV::Skip
            } else {
                ScanV::Keep(ChangeV::DirAdded { path: rel })
            },
            ArchiveKind::Regular => {
                let mode = or_default(e.mode, FALLBACK_MODE);
                if e.host_is_file {
                    if e.same_as_host {
                        ScanV::Skip
                    } else {
                        ScanV::Keep(ChangeV::Modified { path: rel, mode })
                    }
                } else {
                    ScanV::Keep(ChangeV::Added { path: rel, mode })
                }
            },
            ArchiveKind::Symlink { target } => match target {
                Some(t) => ScanV::Keep(ChangeV::Symlink { path: rel, target: t@ }),
                None => ScanV::Refuse(rel, UnsupportedV::SymlinkWithoutTarget),
            },
            ArchiveKind::Other(name) => ScanV::Refuse(rel, UnsupportedV::EntryType(name@)),
        },
    }
}

/// The changes that a run of archive entries reports, in archive order.
pub open spec fn scan_changes(es: Seq<ArchiveEntry>) -> Seq<ChangeV>
    decreases es.len(),
{
    if es.len() == 0 {
        Seq::empty()
    } else {
        match scan_entry(es.last()) {
            ScanV::Keep(c) => scan_changes(es.drop_last()).push(c),
            _ => scan_changes(es.drop_last()),
        }
    }
}

/// The unsupported entries of a run of archive entries, in archive order.
pub open spec fn scan_unsupported(es: Seq<ArchiveEntry>) -> Seq<(Seq<char>, UnsupportedV)>
    decreases es.len(),
{
    if es.len() == 0 {
        Seq::empty()
    } else {
        match scan_entry(es.last()) {
            ScanV::Refuse(p, k) => scan_unsupported(es.drop_last()).push((p, k)),
            _ => scan_unsupported(es.drop_last()),
        }
    }
}

/// What one archive entry contributes (executable form of [`scan_entry`]).
pub enum Scanned {
    Skip,
    Keep(Change),
    Refuse(String, UnsupportedKind),
}

/// Classify one archive entry.
pub fn scan(e: &ArchiveEntry) -> (r: Scanned)
    ensures
        r is Skip ==> scan_entry(*e) is Skip,
        r matches Scanned::Keep(c) ==> scan_entry(*e) == ScanV::Keep(c@),
        r matches Scanned::Refuse(p, k) ==> scan_entry(*e) == ScanV::Refuse(p@, k@),
{
    let rel = match normalize_entry_path(e.path.as_str()) {
        None => {
            return Scanned::Skip;
        },
        Some(rel) => rel,
    };
    match &e.kind {
        ArchiveKind::Char { major, minor } => {
            let mj = match major {
                Some(v) => *v,
                None => NON_WHITEOUT_DEVICE,
            };
            let mn = match minor {
                Some(v) => *v,
                None => NON_WHITEOUT_DEVICE,
            };
            if mj == 0 && mn == 0 {
                Scanned::Keep(Change::Deleted { path: rel })
            } else {
                Scanned::Refuse(rel, UnsupportedKind::CharDevice)
            }
        },
        ArchiveKind::Directory => {
            if e.host_is_dir {
                Scanned::Skip
            } else {
                Scanned::Keep(Change::DirAdded { path: rel })
            }
        },
        ArchiveKind::Regular => {
            let mode = match e.mode {
                Some(m) => m,
                None => FALLBACK_MODE,
            };
            if e.host_is_file {
                if e.same_as_host {
                    Scanned::Skip
                } else {
                    Scanned::Keep(Change::Modified { path: rel, mode })
                }
            } else {
                Scanned::Keep(Change::Added { path: rel, mode })
            }
        },
        ArchiveKind::Symlink { target } => match target {
            Some(t) => Scanned::Keep(Change::Symlink { path: rel, target: t.clone() }),
            None => Scanned::Refuse(rel, UnsupportedKind::SymlinkWithoutTarget),
        },
        ArchiveKind::Other(name) => Scanned::Refuse(rel, UnsupportedKind::EntryType(name.clone())),
    }
}

/// What a run changed.
#[derive(Debug)]
pub struct ChangeSet {
    entries: Vec<Change>,
    unsupported: Vec<(String, UnsupportedKind)>,
    tar_path: String,
}

/// The mathematical form of a [`ChangeSet`].
pub struct ChangeSetV {
    pub entries: Seq<ChangeV>,
    pub unsupported: Seq<(Seq<char>, UnsupportedV)>,
    pub tar_path: Seq<char>,
}

/// The views of a list of changes.
pub open spec fn changes_view(v: Seq<Change>) -> Seq<ChangeV> {
    v.map_values(|c: Change| c@)
}

/// The views of a list of unsupported entries.
pub open spec fn unsupported_view(v: Seq<(String, UnsupportedKind)>) -> Seq<
    (Seq<char>, UnsupportedV),
> {
    v.map_values(|u: (String, UnsupportedKind)| (u.0@, u.1@))
}

impl View for ChangeSet {
    type V = ChangeSetV;

    closed spec fn view(&self) -> ChangeSetV {
        ChangeSetV {
            entries: changes_view(self.entries@),
            unsupported: unsupported_view(self.unsupported@),
            tar_path: self.tar_path@,
        }
    }
}

impl ChangeSet {
    /// The change-set that the archive at `tar_path`, read as `scanned`,
    /// reports: nothing more, nothing less.
    pub fn from_scan(tar_path: String, scanned: &Vec<ArchiveEntry>) -> (r: ChangeSet)
        ensures
            r@.entries == scan_changes(scanned@),
            r@.unsupported == scan_unsupported(scanned@),
            r@.tar_path == tar_path@,
    {
        let mut entries: Vec<Change> = Vec::new();
        let mut unsupported: Vec<(String, UnsupportedKind)> = Vec::new();
        let mut i: usize = 0;
        while i < scanned.len()
            invariant
                i <= scanned.len(),
                changes_view(entries@) == scan_changes(scanned@.take(i as int)),
                unsupported_view(unsupported@) == scan_unsupported(scanned@.take(i as int)),
            decreases scanned.len() - i,
        {
            proof {
                assert(scanned@.take(i + 1).drop_last() =~= scanned@.take(i as int));
                assert(scanned@.take(i + 1).last() == scanned@[i as int]);
            }
            let ghost e0 = entries@;
            let ghost u0 = unsupported@;
            match scan(&scanned[i]) {
                Scanned::Skip => {},
                Scanned::Keep(c) => {
                    entries.push(c);
                    proof {
                        assert(changes_view(entries@) =~= changes_view(e0).push(c@));
                    }
                },
                Scanned::Refuse(p, k) => {
                    unsupported.push((p, k));
                    proof {
                        assert(unsupported_view(unsupported@) =~= unsupported_view(u0).push(
                            (p@, k@),
                        ));
                    }
                },
            }
            i = i + 1;
        }
        proof {
            assert(scanned@.take(scanned.len() as int) =~= scanned@);
        }
        ChangeSet { entries, unsupported, tar_path }
    }

    /// The reported changes, in archive order.
    pub fn entries(&self) -> (r: &Vec<Change>)
        ensures
            changes_view(r@) == self@.entries,
    {
        &self.entries
    }

    /// Archive entries that promotion does not support, with the reason;
    /// never applied, surfaced so nothing is silently dropped.
    pub fn unsupported(&self) -> (r: &Vec<(String, UnsupportedKind)>)
        ensures
            unsupported_view(r@) == self@.unsupported,
    {
        &self.unsupported
    }

    /// Where the archive backing this change-set lies.
    pub fn tar_path(&self) -> (r: &String)
        ensures
            r@ == self@.tar_path,
    {
        &self.tar_path
    }

    /// True when the run changed nothing and nothing was unsupported.
    pub fn is_empty(&self) -> (r: bool)
        ensures
            r == (self@.entries.len() == 0 && self@.unsupported.len() == 0),
    {
        self.entries.len() == 0 && self.unsupported.len() == 0
    }

    /// A promotion report that starts out with every unsupported entry
    /// refused.
    pub fn begin_report(&self) -> (r: ApplyReport)
        ensures
            r.applied@.len() == 0,
            r.deleted@.len() == 0,
            r.stripped@.len() == 0,
            stripped_among_applied(r),
            r.rejected@.len() == self@.unsupported.len(),
            forall|i: int|
                0 <= i < r.rejected@.len() ==> r.rejected@[i].0@ == self@.unsupported[i].0
                    && r.rejected@[i].1@ == RejectV::Unsupported(self@.unsupported[i].1),
    {
        let mut rejected: Vec<(String, RejectReason)> = Vec::new();
        let mut i: usize = 0;
        while i < self.unsupported.len()
            invariant
                i <= self.unsupported.len(),
                rejected@.len() == i,
                forall|j: int|
                    0 <= j < i ==> rejected@[j].0@ == self@.unsupported[j].0 && rejected@[j].1@
                        == RejectV::Unsupported(self@.unsupported[j].1),
            decreases self.unsupported.len() - i,
        {
            let (p, k) = &self.unsupported[i];
            proof {
                assert(self@.unsupported[i as int] == (p@, k@));
            }
            rejected.push((p.clone(), RejectReason::Unsupported(copy_unsupported(k))));
            i = i + 1;
        }
        ApplyReport {
            applied: Vec::new(),
            deleted: Vec::new(),
            rejected,
            stripped: Vec::new(),
        }
    }
}

// ── Promotion ───────────────────────────────────────────────────────────────

/// What promotion does with one change.
#[derive(Debug, Clone, PartialEq, Eq)]
pub enum Admission {
    /// Refuse it, for this reason.
    Refuse(RejectReason),
    /// Remove its path from the destination.
    Delete,
    /// Create its directory in the destination.
    Mkdir,
    /// Write it from the archive's content.
    Stream,
}

/// The mathematical form of an [`Admission`].
pub enum AdmissionV {
    Refuse(RejectV),
    Delete,
    Mkdir,
    Stream,
}

impl View for Admission {
    type V = AdmissionV;

    open spec fn view(&self) -> AdmissionV {
        match self {
            Admission::Refuse(r) => AdmissionV::Refuse(r@),
            Admission::Delete => AdmissionV::Delete,
            Admission::Mkdir => AdmissionV::Mkdir,
            Admission::Stream => AdmissionV::Stream,
        }
    }
}

/// What promotion into `dest` does with the change `c`: its path must
/// pass [`dest_verdict`]; a symlink's target must also pass
/// [`target_verdict`].
pub open spec fn admission(dest: Seq<char>, c: ChangeV, links: Seq<Seq<char>>) -> AdmissionV {
    match dest_verdict(dest, change_path(c), links) {
        Err(e) => AdmissionV::Refuse(e),
        Ok(_) => match c {
            ChangeV::Deleted { .. } => AdmissionV::Delete,
            ChangeV::DirAdded { .. } => AdmissionV::Mkdir,
            ChangeV::Symlink { path, target } => match target_verdict(path, target) {
                Err(e) => AdmissionV::Refuse(e),
                Ok(_) => AdmissionV::Stream,
            },
            _ => AdmissionV::Stream,
        },
    }
}

/// Decide what promotion into `dest` does with `change`, where `links`
/// are the destination paths that are symlinks.
pub fn admission_of(dest: &str, change: &Change, links: &Vec<String>) -> (r: Admission)
    ensures
        r@ == admission(dest@, change@, strings_view(links@)),
{
    match validate_dest_path(dest, change.path().as_str(), links) {
        Err(why) => Admission::Refuse(why),
        Ok(()) => match change {
            Change::Deleted { .. } => Admission::Delete,
            Change::DirAdded { .. } => Admission::Mkdir,
            Change::Symlink { path, target } => match validate_symlink_target(
                path.as_str(),
                target.as_str(),
            ) {
                Err(why) => Admission::Refuse(why),
                Ok(()) => Admission::Stream,
            },
            _ => Admission::Stream,
        },
    }
}

/// The position of the change for `rel` among the changes to stream: the
/// last one with that path, since a later change for a path replaces an
/// earlier one.
pub fn find_wanted(want: &Vec<Change>, rel: &str) -> (r: Option<usize>)
    ensures
        r matches Some(i) ==> i < want@.len() && change_path(want@[i as int]@) == rel@ && forall|
            j: int,
        |
            i < j < want@.len() ==> change_path(want@[j]@) != rel@,
        r is None ==> forall|j: int| 0 <= j < want@.len() ==> change_path(want@[j]@) != rel@,
{
    let target = chars_of(rel);
    let mut i: usize = want.len();
    while i > 0
        invariant
            i <= want@.len(),
            target@ == rel@,
            forall|j: int| i <= j < want@.len() ==> change_path(want@[j]@) != rel@,
        decreases i,
    {
        let p = chars_of(want[i - 1].path().as_str());
        if chars_eq(&p, &target) {
            return Some(i - 1);
        }
        i = i - 1;
    }
    None
}

/// How one streamed change is written.
#[derive(Debug, Clone, PartialEq, Eq)]
pub enum WriteAction {
    /// Write a symlink to this target.
    Symlink { target: String },
    /// Write a file with these permission bits; `strip` says whether the
    /// archive asked for setuid/setgid bits that were dropped.
    File { mode: u32, strip: bool },
}

/// How a change is written, if it is streamed from the archive at all: a
/// file keeps only its permission bits, never setuid, setgid or sticky.
pub fn write_action(c: &Change) -> (r: Option<WriteAction>)
    ensures
        c@ matches ChangeV::Symlink { target, .. } ==> (r matches Some(WriteAction::Symlink { target: t }) && t@ == target),
        c@ matches ChangeV::Added { mode, .. } ==> r == Some(WriteAction::File { mode: mode & 0o777, strip: mode & 0o6000 != 0 }),
        c@ matches ChangeV::Modified { mode, .. } ==> r == Some(WriteAction::File { mode: mode & 0o777, strip: mode & 0o6000 != 0 }),
        c@ is Deleted || c@ is DirAdded ==> r is None,
        r matches Some(WriteAction::File { mode, .. }) ==> mode & 0o6000 == 0 && mode <= 0o777,
{
    match c {
        Change::Symlink { target, .. } => Some(WriteAction::Symlink { target: target.clone() }),
        Change::Added { mode, .. } | Change::Modified { mode, .. } => {
            let m = *mode;
            let safe = m & 0o777;
            proof {
                assert((m & 0o777) & 0o6000 == 0 && (m & 0o777) <= 0o777) by (bit_vector);
            }
            Some(WriteAction::File { mode: safe, strip: m & 0o6000 != 0 })
        },
        Change::Deleted { .. } | Change::DirAdded { .. } => None,
    }
}

/// How removing a deletion entry's target went.
#[derive(Debug, Clone, PartialEq, Eq)]
pub enum Removal {
    /// The target existed and was removed.
    Removed,
    /// The destination holds nothing at the path.
    Missing,
    /// Removal failed; the operating system's description.
    Failed(String),
}

/// Outcome of a promotion. Nothing is silently dropped: every entry lands
/// in exactly one of `applied`, `deleted` and `rejected`; `stripped`
/// additionally names applied files whose setuid/setgid bits were dropped.
#[derive(Debug)]
pub struct ApplyReport {
    /// Entries written into the destination (files, dirs, symlinks).
    pub applied: Vec<String>,
    /// Deletion entries whose target existed and was removed.
    pub deleted: Vec<String>,
    /// Entries refused, with the reason.
    pub rejected: Vec<(String, RejectReason)>,
    /// Files whose setuid/setgid bits were stripped during promotion.
    pub stripped: Vec<String>,
}

/// How many entries a report has settled.
pub open spec fn settled(r: ApplyReport) -> nat {
    r.applied@.len() + r.deleted@.len() + r.rejected@.len()
}

/// Every path a report names as stripped it also names as applied.
pub open spec fn stripped_among_applied(r: ApplyReport) -> bool {
    forall|i: int| 0 <= i < r.stripped@.len() ==> #[trigger] r.applied@.contains(r.stripped@[i])
}

proof fn lemma_push_keeps_members(s: Seq<String>, x: String)
    ensures
        forall|y: String| s.contains(y) ==> #[trigger] s.push(x).contains(y),
        s.push(x).contains(x),
{
    assert forall|y: String| s.contains(y) implies #[trigger] s.push(x).contains(y) by {
        let k = choose|k: int| 0 <= k < s.len() && s[k] == y;
        assert(s.push(x)[k] == y);
    }
    assert(s.push(x)[s.len() as int] == x);
}

impl ApplyReport {
    /// Record a refusal.
    pub fn refuse(&mut self, path: String, why: RejectReason)
        ensures
            final(self).rejected@ == old(self).rejected@.push((path, why)),
            final(self).applied@ == old(self).applied@,
            final(self).deleted@ == old(self).deleted@,
            final(self).stripped@ == old(self).stripped@,
            settled(*final(self)) == settled(*old(self)) + 1,
            stripped_among_applied(*old(self)) ==> stripped_among_applied(*final(self)),
    {
        self.rejected.push((path, why));
    }

    /// Record how removing a deletion entry's target went: removed paths
    /// are deleted, a missing target or a failure is a refusal.
    pub fn record_removal(&mut self, path: String, outcome: Removal)
        ensures
            outcome is Removed ==> final(self).deleted@ == old(self).deleted@.push(path)
                && final(self).rejected@ == old(self).rejected@,
            outcome is Missing ==> final(self).rejected@ == old(self).rejected@.push(
                (path, RejectReason::DeletionTargetMissing),
            ) && final(self).deleted@ == old(self).deleted@,
            outcome matches Removal::Failed(e) ==> final(self).rejected@ == old(
                self,
            ).rejected@.push((path, RejectReason::DeleteFailed(e))) && final(self).deleted@ == old(
                self,
            ).deleted@,
            final(self).applied@ == old(self).applied@,
            final(self).stripped@ == old(self).stripped@,
            settled(*final(self)) == settled(*old(self)) + 1,
            stripped_among_applied(*old(self)) ==> stripped_among_applied(*final(self)),
    {
        match outcome {
            Removal::Removed => self.deleted.push(path),
            Removal::Missing => self.rejected.push((path, RejectReason::DeletionTargetMissing)),
            Removal::Failed(e) => self.rejected.push((path, RejectReason::DeleteFailed(e))),
        }
    }

    /// Record how creating a directory entry went.
    pub fn record_mkdir(&mut self, path: String, outcome: Result<(), String>)
        ensures
            outcome is Ok ==> final(self).applied@ == old(self).applied@.push(path)
                && final(self).rejected@ == old(self).rejected@,
            outcome matches Err(e) ==> final(self).rejected@ == old(self).rejected@.push(
                (path, RejectReason::MkdirFailed(e)),
            ) && final(self).applied@ == old(self).applied@,
            final(self).deleted@ == old(self).deleted@,
            final(self).stripped@ == old(self).stripped@,
            settled(*final(self)) == settled(*old(self)) + 1,
            stripped_among_applied(*old(self)) ==> stripped_among_applied(*final(self)),
    {
        match outcome {
            Ok(()) => {
                proof {
                    lemma_push_keeps_members(self.applied@, path);
                }
                self.applied.push(path);
            },
            Err(e) => self.rejected.push((path, RejectReason::MkdirFailed(e))),
        }
    }

    /// Record that creating a streamed entry's parent directory failed.
    pub fn record_parent_failure(&mut self, path: String, e: String)
        ensures
            final(self).rejected@ == old(self).rejected@.push(
                (path, RejectReason::MkdirParentFailed(e)),
            ),
            final(self).applied@ == old(self).applied@,
            final(self).deleted@ == old(self).deleted@,
            final(self).stripped@ == old(self).stripped@,
            settled(*final(self)) == settled(*old(self)) + 1,
            stripped_among_applied(*old(self)) ==> stripped_among_applied(*final(self)),
    {
        self.rejected.push((path, RejectReason::MkdirParentFailed(e)));
    }

    /// Record how writing a symlink entry went.
    pub fn record_symlink(&mut self, path: String, outcome: Result<(), String>)
        ensures
            outcome is Ok ==> final(self).applied@ == old(self).applied@.push(path)
                && final(self).rejected@ == old(self).rejected@,
            outcome matches Err(e) ==> final(self).rejected@ == old(self).rejected@.push(
                (path, RejectReason::SymlinkFailed(e)),
            ) && final(self).applied@ == old(self).applied@,
            final(self).deleted@ == old(self).deleted@,
            final(self).stripped@ == old(self).stripped@,
            settled(*final(self)) == settled(*old(self)) + 1,
            stripped_among_applied(*old(self)) ==> stripped_among_applied(*final(self)),
    {
        match outcome {
            Ok(()) => {
                proof {
                    lemma_push_keeps_members(self.applied@, path);
                }
                self.applied.push(path);
            },
            Err(e) => self.rejected.push((path, RejectReason::SymlinkFailed(e))),
        }
    }

    /// Record how writing a file entry went; a written file whose
    /// setuid/setgid bits were dropped (`strip`) is also reported stripped.
    pub fn record_write(&mut self, path: String, strip: bool, outcome: Result<(), String>)
        ensures
            outcome is Ok ==> final(self).applied@ == old(self).applied@.push(path)
                && final(self).rejected@ == old(self).rejected@ && final(self).stripped@ == (if strip {
                old(self).stripped@.push(path)
            } else {
                old(self).stripped@
            }),
            outcome matches Err(e) ==> final(self).rejected@ == old(self).rejected@.push(
                (path, RejectReason::WriteFailed(e)),
            ) && final(self).applied@ == old(self).applied@ && final(self).stripped@ == old(
                self,
            ).stripped@,
            final(self).deleted@ == old(self).deleted@,
            settled(*final(self)) == settled(*old(self)) + 1,
            stripped_among_applied(*old(self)) ==> stripped_among_applied(*final(self)),
    {
        match outcome {
            Ok(()) => {
                proof {
                    lemma_push_keeps_members(self.applied@, path);
                }
                if strip {
                    self.stripped.push(path.clone());
                }
                self.applied.push(path);
                proof {
                    if stripped_among_applied(*old(self)) {
                        assert forall|i: int| 0 <= i < self.stripped@.len() implies #[trigger] self.applied@.contains(
                            self.stripped@[i],
                        ) by {
                            if i < old(self).stripped@.len() {
                                assert(old(self).applied@.contains(old(self).stripped@[i]));
                            }
                        }
                    }
                }
            },
            Err(e) => self.rejected.push((path, RejectReason::WriteFailed(e))),
        }
    }
}


/// A promotion under way: the report so far and the changes that wait to
/// be streamed from the archive.
#[derive(Debug)]
pub struct Promotion {
    pub report: ApplyReport,
    pub want: Vec<Change>,
}

/// How many changes a promotion has accounted for: those its report has
/// settled and those waiting to be streamed.
pub open spec fn accounted(p: Promotion) -> nat {
    settled(p.report) + p.want@.len()
}

impl Promotion {
    /// A promotion of `changes` that has settled only its unsupported
    /// entries, each refused as unsupported.
    pub fn begin(changes: &ChangeSet) -> (r: Promotion)
        ensures
            r.want@.len() == 0,
            r.report.applied@.len() == 0,
            r.report.deleted@.len() == 0,
            r.report.stripped@.len() == 0,
            stripped_among_applied(r.report),
            r.report.rejected@.len() == changes@.unsupported.len(),
            forall|i: int|
                0 <= i < r.report.rejected@.len() ==> r.report.rejected@[i].0@ == changes@.unsupported[i].0
                    && r.report.rejected@[i].1@ == RejectV::Unsupported(changes@.unsupported[i].1),
            accounted(r) == changes@.unsupported.len(),
    {
        Promotion { report: changes.begin_report(), want: Vec::new() }
    }

    /// Take up one change for `dest`, where `links` are the destination
    /// paths that are symlinks. A refusal is recorded and a streamed change
    /// is set to wait at once; each accounts for the change. A deletion or
    /// a directory is handed back to be performed; recording its outcome
    /// (`record_removal`, `record_mkdir`) accounts for it.
    pub fn consider(&mut self, dest: &str, change: &Change, links: &Vec<String>) -> (r: Admission)
        ensures
            r@ == admission(dest@, change@, strings_view(links@)),
            r matches Admission::Refuse(why) ==> final(self).report.rejected@.len() == old(self).report.rejected@.len() + 1
                && final(self).report.rejected@.drop_last() == old(self).report.rejected@
                && final(self).report.rejected@.last().0@ == change_path(change@)
                && final(self).report.rejected@.last().1@ == why@
                && final(self).want@ == old(self).want@,
            r is Stream ==> changes_view(final(self).want@) == changes_view(old(self).want@).push(change@)
                && final(self).report.rejected@ == old(self).report.rejected@,
            r is Delete || r is Mkdir ==> final(self).want@ == old(self).want@
                && final(self).report.rejected@ == old(self).report.rejected@,
            final(self).report.applied@ == old(self).report.applied@,
            final(self).report.deleted@ == old(self).report.deleted@,
            final(self).report.stripped@ == old(self).report.stripped@,
            accounted(*final(self)) == accounted(*old(self)) + (if r is Delete || r is Mkdir {
                0int
            } else {
                1int
            }),
    {
        let a = admission_of(dest, change, links);
        match &a {
            Admission::Refuse(why) => {
                self.report.refuse(change.path().clone(), copy_reject(why));
            },
            Admission::Stream => {
                let ghost before = self.want@;
                self.want.push(copy_change(change));
                proof {
                    assert(changes_view(self.want@) =~= changes_view(before).push(change@));
                }
            },
            _ => {},
        }
        a
    }
}

/// What the first pass of a promotion asks for.
#[derive(Debug, Clone, PartialEq, Eq)]
pub enum PassAction {
    /// The destination paths along this change's path that are symlinks.
    Probe(String),
    /// Remove this path from the destination, and say how it went.
    Delete(String),
    /// Create this directory in the destination, and say how it went.
    Mkdir(String),
    /// The first pass is over: stream the waiting changes from the archive.
    Stream,
}

/// The mathematical form of a [`PassAction`].
pub enum PassActionV {
    Probe(Seq<char>),
    Delete(Seq<char>),
    Mkdir(Seq<char>),
    Stream,
}

impl View for PassAction {
    type V = PassActionV;

    open spec fn view(&self) -> PassActionV {
        match self {
            PassAction::Probe(p) => PassActionV::Probe(p@),
            PassAction::Delete(p) => PassActionV::Delete(p@),
            PassAction::Mkdir(p) => PassActionV::Mkdir(p@),
            PassAction::Stream => PassActionV::Stream,
        }
    }
}

/// What the first pass is told.
#[derive(Debug)]
pub enum PassEvent {
    /// The destination paths along the change's path that are symlinks.
    Probed(Vec<String>),
    /// How removing a deletion's target went.
    Removed(Removal),
    /// How creating a directory went.
    Made(Result<(), String>),
}

/// What the first pass waits on for the change in hand.
#[derive(Debug, Clone, Copy, PartialEq, Eq, Structural)]
pub enum Awaiting {
    /// The symlink probe of its path.
    Probe,
    /// The outcome of removing its target.
    Removal,
    /// The outcome of creating its directory.
    Mkdir,
}

/// The first pass of a promotion, change by change: each change is
/// refused, set to wait for the archive, or handed out to be removed or
/// created and its outcome recorded.
#[derive(Debug)]
pub struct FirstPass {
    pub promotion: Promotion,
    /// The run's changes, in order.
    pub entries: Vec<Change>,
    /// How many entries the run could not represent.
    pub unsupported: usize,
    /// The change in hand; those before it are accounted for.
    pub next: usize,
    pub awaiting: Awaiting,
    pub dest: String,
}

/// A first pass is well formed: the changes before the one in hand are
/// each accounted for exactly once, beside the unsupported entries.
pub open spec fn pass_wf(p: FirstPass) -> bool {
    &&& p.next <= p.entries@.len()
    &&& accounted(p.promotion) == p.unsupported + p.next
    &&& p.awaiting != Awaiting::Probe ==> p.next < p.entries@.len()
}

/// What a first pass asks for next: for the change in hand, its probe or
/// its outcome; after the last change, the stream.
pub open spec fn pass_request(p: FirstPass) -> PassActionV {
    if p.next >= p.entries@.len() {
        PassActionV::Stream
    } else {
        let path = change_path(p.entries@[p.next as int]@);
        match p.awaiting {
            Awaiting::Probe => PassActionV::Probe(path),
            Awaiting::Removal => PassActionV::Delete(path),
            Awaiting::Mkdir => PassActionV::Mkdir(path),
        }
    }
}

impl FirstPass {
    /// What the pass asks for now.
    fn request(&self) -> (r: PassAction)
        requires
            pass_wf(*self),
        ensures
            r@ == pass_request(*self),
    {
        if self.next >= self.entries.len() {
            PassAction::Stream
        } else {
            let path = self.entries[self.next].path().clone();
            match self.awaiting {
                Awaiting::Probe => PassAction::Probe(path),
                Awaiting::Removal => PassAction::Delete(path),
                Awaiting::Mkdir => PassAction::Mkdir(path),
            }
        }
    }

    /// The first pass of promoting `changes` into `dest`: the unsupported
    /// entries refused, nothing else yet, and its first request.
    pub fn begin(changes: &ChangeSet, dest: &str) -> (r: (FirstPass, PassAction))
        ensures
            pass_wf(r.0),
            r.0.next == 0,
            r.0.awaiting == Awaiting::Probe,
            r.0.dest@ == dest@,
            changes_view(r.0.entries@) == changes@.entries,
            r.0.unsupported == changes@.unsupported.len(),
            r.0.promotion.want@.len() == 0,
            r.0.promotion.report.applied@.len() == 0,
            r.0.promotion.report.deleted@.len() == 0,
            stripped_among_applied(r.0.promotion.report),
            forall|i: int|
                0 <= i < r.0.promotion.report.rejected@.len() ==> r.0.promotion.report.rejected@[i].0@
                    == changes@.unsupported[i].0 && r.0.promotion.report.rejected@[i].1@ == RejectV::Unsupported(
                    changes@.unsupported[i].1,
                ),
            r.1@ == pass_request(r.0),
    {
        let promotion = Promotion::begin(changes);
        let src = changes.entries();
        let mut entries: Vec<Change> = Vec::new();
        let mut i: usize = 0;
        while i < src.len()
            invariant
                i <= src@.len(),
                entries@.len() == i,
                forall|j: int| 0 <= j < i ==> #[trigger] entries@[j]@ == src@[j]@,
            decreases src@.len() - i,
        {
            entries.push(copy_change(&src[i]));
            i = i + 1;
        }
        proof {
            assert(changes_view(entries@) =~= changes_view(src@));
        }
        let us = changes.unsupported();
        let unsupported = us.len();
        proof {
            assert(unsupported_view(us@).len() == us@.len());
        }
        let p = FirstPass {
            promotion,
            entries,
            unsupported,
            next: 0,
            awaiting: Awaiting::Probe,
            dest: string_from(dest),
        };
        let r = p.request();
        (p, r)
    }

    /// Take one answer. A probe decides the change in hand: a refusal is
    /// recorded and a streamed change set to wait, and the pass moves on; a
    /// deletion or a directory is handed out, and its outcome, recorded,
    /// moves the pass on. An answer to something not asked changes nothing.
    /// Once the last change is accounted for, the pass asks for the stream,
    /// with every change accounted for exactly once.
    pub fn step(&mut self, e: PassEvent) -> (r: PassAction)
        requires
            pass_wf(*old(self)),
        ensures
            pass_wf(*final(self)),
            final(self).entries@ == old(self).entries@,
            final(self).unsupported == old(self).unsupported,
            final(self).dest == old(self).dest,
            final(self).next == old(self).next || final(self).next == old(self).next + 1,
            r@ == pass_request(*final(self)),
            old(self).next < old(self).entries@.len() && old(self).awaiting == Awaiting::Probe ==> (e matches PassEvent::Probed(links) ==> ({
                let a = admission(old(self).dest@, old(self).entries@[old(self).next as int]@, strings_view(links@));
                &&& a is Delete ==> final(self).awaiting == Awaiting::Removal && final(self).next == old(self).next
                &&& a is Mkdir ==> final(self).awaiting == Awaiting::Mkdir && final(self).next == old(self).next
                &&& (a is Refuse || a is Stream) ==> final(self).awaiting == Awaiting::Probe && final(self).next == old(self).next + 1
                &&& a is Stream ==> changes_view(final(self).promotion.want@) == changes_view(old(self).promotion.want@).push(old(self).entries@[old(self).next as int]@)
            })),
            old(self).awaiting == Awaiting::Removal ==> (e matches PassEvent::Removed(o) ==> final(self).next == old(self).next + 1
                && final(self).awaiting == Awaiting::Probe
                && (o is Removed ==> final(self).promotion.report.deleted@.len() == old(self).promotion.report.deleted@.len() + 1
                    && final(self).promotion.report.deleted@.last()@ == change_path(old(self).entries@[old(self).next as int]@))),
            old(self).awaiting == Awaiting::Mkdir ==> (e matches PassEvent::Made(o) ==> final(self).next == old(self).next + 1
                && final(self).awaiting == Awaiting::Probe
                && (o is Ok ==> final(self).promotion.report.applied@.len() == old(self).promotion.report.applied@.len() + 1
                    && final(self).promotion.report.applied@.last()@ == change_path(old(self).entries@[old(self).next as int]@))),
            r is Stream ==> final(self).next == final(self).entries@.len() && settled(final(self).promotion.report)
                + final(self).promotion.want@.len() == final(self).unsupported + final(self).entries@.len(),
    {
        if self.next >= self.entries.len() {
            return self.request();
        }
        match (self.awaiting, e) {
            (Awaiting::Probe, PassEvent::Probed(links)) => {
                let a = self.promotion.consider(self.dest.as_str(), &self.entries[self.next], &links);
                match a {
                    Admission::Delete => {
                        self.awaiting = Awaiting::Removal;
                    },
                    Admission::Mkdir => {
                        self.awaiting = Awaiting::Mkdir;
                    },
                    _ => {
                        self.next = self.next + 1;
                    },
                }
            },
            (Awaiting::Removal, PassEvent::Removed(o)) => {
                let path = self.entries[self.next].path().clone();
                self.promotion.report.record_removal(path, o);
                self.next = self.next + 1;
                self.awaiting = Awaiting::Probe;
            },
            (Awaiting::Mkdir, PassEvent::Made(o)) => {
                let path = self.entries[self.next].path().clone();
                self.promotion.report.record_mkdir(path, o);
                self.next = self.next + 1;
                self.awaiting = Awaiting::Probe;
            },
            _ => {},
        }
        self.request()
    }
}

} // verus!
