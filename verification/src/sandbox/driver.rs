//! The in-guest driver script.
//!
//! A generated POSIX-sh script mounted read-only into the guest. It mounts
//! the overlay, execs the workload with the caller's argv passed as script
//! arguments (no quoting or injection surface), and exports the overlay's
//! upper layer as a tar archive into the read-write out-mount.
//!
//! Driver-stage failures are told apart from workload exit codes by the
//! absence of `out/exit_code`: the driver writes that file only after the
//! workload has run. Export success is signalled by rename: the archive is
//! written under a partial name and moved to its final name only after
//! tar succeeds, so an archive at [`CHANGES_TAR`] is positive evidence of a
//! completed export.
use vstd::prelude::*;

use crate::text::{idec, push_int, push_str};

verus! {

/// Exit code of a failed `mkdir` of the overlay directories (before the
/// workload runs).
pub const EXIT_MKDIR: i32 = 124;

/// Exit code of a failed overlay mount (before the workload runs).
pub const EXIT_OVERLAY: i32 = 125;

/// Exit code of a failed `cd` into the merged overlay (before the workload
/// runs).
pub const EXIT_CD: i32 = 126;

/// Exit code of a failed export, after the workload ran; `out/exit_code`
/// is still written then, so the workload's code is preserved.
pub const EXIT_EXPORT: i32 = 127;

/// Guest mount point of the worktree (read-only lower layer).
pub const GUEST_LOWER: &'static str = "/daemar/lower";

/// Guest mount point of the session's out directory (read-write).
pub const GUEST_OUT: &'static str = "/daemar/out";

/// Guest mount point of the session's bin directory (read-only).
pub const GUEST_BIN: &'static str = "/daemar/bin";

/// Guest tmpfs holding the overlay's upper, work and merged directories.
pub const GUEST_OVL: &'static str = "/daemar/ovl";

/// File name of the driver script in the bin directory.
pub const DRIVER_FILENAME: &'static str = "driver.sh";

/// File name of the completed export archive.
pub const CHANGES_TAR: &'static str = "changes.tar";

/// In-progress name the export writes to; renamed to [`CHANGES_TAR`] only
/// on success.
pub const CHANGES_TAR_PARTIAL: &'static str = "changes.tar.partial";

/// File name of the workload's recorded exit code.
pub const EXIT_CODE_FILE: &'static str = "exit_code";

/// The text of the driver script.
pub open spec fn driver_text() -> Seq<char> {
    "#!/bin/sh\nset -u\nfail() { echo \"daemar-driver: $1\" >&2; exit \"$2\"; }\nmkdir -p "@
        + GUEST_OVL@
        + "/upper "@
        + GUEST_OVL@
        + "/work "@
        + GUEST_OVL@
        + "/merged || fail \"mkdir\" "@
        + idec(EXIT_MKDIR as int)
        + "\nmount -t overlay overlay \\\n  -o lowerdir="@
        + GUEST_LOWER@
        + ",upperdir="@
        + GUEST_OVL@
        + "/upper,workdir="@
        + GUEST_OVL@
        + "/work \\\n  "@
        + GUEST_OVL@
        + "/merged || fail \"overlay mount\" "@
        + idec(EXIT_OVERLAY as int)
        + "\ncd "@
        + GUEST_OVL@
        + "/merged || fail \"cd\" "@
        + idec(EXIT_CD as int)
        + "\n\"$@\"\nrc=$?\necho \"$rc\" > "@
        + GUEST_OUT@
        + "/"@
        + EXIT_CODE_FILE@
        + "\ntar -C "@
        + GUEST_OVL@
        + "/upper -cf "@
        + GUEST_OUT@
        + "/"@
        + CHANGES_TAR_PARTIAL@
        + " . || fail \"export\" "@
        + idec(EXIT_EXPORT as int)
        + "\nmv "@
        + GUEST_OUT@
        + "/"@
        + CHANGES_TAR_PARTIAL@
        + " "@
        + GUEST_OUT@
        + "/"@
        + CHANGES_TAR@
        + " || fail \"export\" "@
        + idec(EXIT_EXPORT as int)
        + "\nexit \"$rc\"\n"@
}

/// The driver script.
pub fn driver_script() -> (r: String)
    ensures
        r@ == driver_text(),
{
    let mut s = String::new();
    push_str(&mut s, "#!/bin/sh\nset -u\nfail() { echo \"daemar-driver: $1\" >&2; exit \"$2\"; }\nmkdir -p ");
    push_str(&mut s, GUEST_OVL);
    push_str(&mut s, "/upper ");
    push_str(&mut s, GUEST_OVL);
    push_str(&mut s, "/work ");
    push_str(&mut s, GUEST_OVL);
    push_str(&mut s, "/merged || fail \"mkdir\" ");
    push_int(&mut s, EXIT_MKDIR as i64);
    push_str(&mut s, "\nmount -t overlay overlay \\\n  -o lowerdir=");
    push_str(&mut s, GUEST_LOWER);
    push_str(&mut s, ",upperdir=");
    push_str(&mut s, GUEST_OVL);
    push_str(&mut s, "/upper,workdir=");
    push_str(&mut s, GUEST_OVL);
    push_str(&mut s, "/work \\\n  ");
    push_str(&mut s, GUEST_OVL);
    push_str(&mut s, "/merged || fail \"overlay mount\" ");
    push_int(&mut s, EXIT_OVERLAY as i64);
    push_str(&mut s, "\ncd ");
    push_str(&mut s, GUEST_OVL);
    push_str(&mut s, "/merged || fail \"cd\" ");
    push_int(&mut s, EXIT_CD as i64);
    push_str(&mut s, "\n\"$@\"\nrc=$?\necho \"$rc\" > ");
    push_str(&mut s, GUEST_OUT);
    push_str(&mut s, "/");
    push_str(&mut s, EXIT_CODE_FILE);
    push_str(&mut s, "\ntar -C ");
    push_str(&mut s, GUEST_OVL);
    push_str(&mut s, "/upper -cf ");
    push_str(&mut s, GUEST_OUT);
    push_str(&mut s, "/");
    push_str(&mut s, CHANGES_TAR_PARTIAL);
    push_str(&mut s, " . || fail \"export\" ");
    push_int(&mut s, EXIT_EXPORT as i64);
    push_str(&mut s, "\nmv ");
    push_str(&mut s, GUEST_OUT);
    push_str(&mut s, "/");
    push_str(&mut s, CHANGES_TAR_PARTIAL);
    push_str(&mut s, " ");
    push_str(&mut s, GUEST_OUT);
    push_str(&mut s, "/");
    push_str(&mut s, CHANGES_TAR);
    push_str(&mut s, " || fail \"export\" ");
    push_int(&mut s, EXIT_EXPORT as i64);
    push_str(&mut s, "\nexit \"$rc\"\n");
    s
}

} // verus!
