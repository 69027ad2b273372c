//! One-shot sandboxed command execution: the in-guest driver, the run's
//! failure surface, the host-side decisions of a run, and the change-set a
//! run brings back.
use vstd::prelude::*;

pub mod changeset;
pub mod driver;
pub mod error;
pub mod runner;

verus! {

/// The `container` CLI version this library was tested against; a run
/// warns when the installed version differs.
pub const TESTED_CONTAINER_VERSION: &'static str = "1.2.2";

/// Default guest image, pinned by digest. The image is a toolset, not a
/// boundary: the VM wall and `--network none` are the security controls.
pub const DEFAULT_IMAGE: &'static str = "docker.io/library/ubuntu@sha256:678c6550cc43645e08669028bc177f50be4e7c5b8cca677067b1914d4afc7a03";

/// Prefix of every container name a run creates.
pub const CONTAINER_PREFIX: &'static str = "daemar-sbx-";

/// Directory under the system temporary directory that holds the
/// per-run session directories.
pub const SESSION_ROOT: &'static str = "daemar-sandbox";

} // verus!
