//! The wall: the contract between a stage and whatever holds it. The
//! engine's model loop and the API key stay on the host; only tool
//! execution crosses the wall, and the stage's worktree is the entire
//! visible world inside.
use vstd::prelude::*;

use crate::factory::roster::ToolAccess;
use crate::text::{push_str, string_from};

verus! {

/// One extra mount beyond the stage worktree.
#[derive(Debug, Clone)]
pub struct Mount {
    pub host: String,
    pub guest: String,
    pub read_only: bool,
}

/// Network policy, a closed set whose only member today is no network.
#[derive(Debug, Clone, Copy, PartialEq, Eq, Structural)]
pub enum NetworkPolicy {
    /// No network at all.
    NoNetwork,
}

/// Resource limits of a wall.
#[derive(Debug, Clone)]
pub struct Resources {
    pub cpus: Option<String>,
    pub memory: Option<String>,
}

/// Everything a wall needs to hold one stage.
#[derive(Debug, Clone)]
pub struct StagePolicy {
    pub image: String,
    pub extra_mounts: Vec<Mount>,
    pub network: NetworkPolicy,
    /// Guest identity for implementations that take one; never root.
    pub user: String,
    pub resources: Resources,
}

/// The default stage image.
pub const DEFAULT_CAGE_IMAGE: &'static str = "daemar-cage:latest";

/// The default guest identity (nonroot).
pub const DEFAULT_CAGE_USER: &'static str = "65532:65532";

impl Default for StagePolicy {
    /// The default policy: the cage image, no extra mounts, no network,
    /// the nonroot identity, no resource limits.
    fn default() -> (r: StagePolicy)
        ensures
            r.image@ == DEFAULT_CAGE_IMAGE@,
            r.extra_mounts@.len() == 0,
            r.network == NetworkPolicy::NoNetwork,
            r.user@ == DEFAULT_CAGE_USER@,
            r.resources.cpus is None,
            r.resources.memory is None,
    {
        StagePolicy {
            image: string_from(DEFAULT_CAGE_IMAGE),
            extra_mounts: Vec::new(),
            network: NetworkPolicy::NoNetwork,
            user: string_from(DEFAULT_CAGE_USER),
            resources: Resources { cpus: None, memory: None },
        }
    }
}

/// Whether tool execution is walled.
#[derive(Debug, Clone, Copy, PartialEq, Eq, Structural)]
pub enum WallMode {
    Off,
    On,
}

/// How teardown proved the sandbox gone.
#[derive(Debug, Clone, Copy, PartialEq, Eq, Structural)]
pub enum Teardown {
    /// We removed it.
    Removed,
    /// It was already gone: goal satisfied, anomaly worth a note.
    AlreadyGone,
}

/// How a wall fails.
#[derive(Debug, Clone, PartialEq, Eq)]
pub enum WallError {
    /// The wall runtime itself is unavailable.
    Unavailable { detail: String },
    /// The stage image is not present; `remedy` says how to produce it.
    ImageMissing { image: String, remedy: String, detail: String },
    /// Opening, using or tearing down the sandbox failed.
    Lifecycle { detail: String },
}

/// The message of a wall failure.
pub open spec fn wall_error_text(e: WallError) -> Seq<char> {
    match e {
        WallError::Unavailable { detail } => "the sandbox runtime is unavailable: "@ + detail@,
        WallError::ImageMissing { image, remedy, detail } => "sandbox image '"@ + image@
            + "' is not available locally — "@ + remedy@ + ": "@ + detail@,
        WallError::Lifecycle { detail } => "sandbox lifecycle: "@ + detail@,
    }
}

impl WallError {
    /// The message describing this failure.
    pub fn message(&self) -> (r: String)
        ensures
            r@ == wall_error_text(*self),
    {
        match self {
            WallError::Unavailable { detail } => {
                let mut s = string_from("the sandbox runtime is unavailable: ");
                push_str(&mut s, detail.as_str());
                s
            },
            WallError::ImageMissing { image, remedy, detail } => {
                let mut s = string_from("sandbox image '");
                push_str(&mut s, image.as_str());
                push_str(&mut s, "' is not available locally — ");
                push_str(&mut s, remedy.as_str());
                push_str(&mut s, ": ");
                push_str(&mut s, detail.as_str());
                s
            },
            WallError::Lifecycle { detail } => {
                let mut s = string_from("sandbox lifecycle: ");
                push_str(&mut s, detail.as_str());
                s
            },
        }
    }
}

/// One stage's live sandbox.
pub trait StageWall {
    /// Opaque identifier of the running sandbox; receipt metadata only.
    fn id(&self) -> &str;

    /// Carry one tool request across the wall and bring the outcome back.
    /// Any transport failure marks the session dead.
    fn send(&mut self, request_json: &str) -> Result<String, String>;

    /// Whether the session can no longer be trusted, as this wall keeps it.
    spec fn is_dead(&self) -> bool;

    /// True once the session can no longer be trusted.
    fn dead(&self) -> (r: bool)
        ensures
            r == self.is_dead(),
    ;

    /// Prove the sandbox gone.
    fn terminate(self: Box<Self>) -> Result<Teardown, WallError>;
}

/// What opens walls.
pub trait WallOpener {
    /// Names the implementation for receipts; never a branch condition.
    fn wall_name(&self) -> &'static str;

    /// Run before a slip is minted: a missing runtime or image is a
    /// refusal that costs nothing.
    fn preflight(&self, policy: &StagePolicy) -> Result<(), WallError>;

    /// Open the stage's sandbox; the worktree is its whole world and the
    /// seat's access decides whether that world is writable.
    fn open(
        &self,
        policy: &StagePolicy,
        worktree: &str,
        access: ToolAccess,
        name_hint: &str,
    ) -> Result<Box<dyn StageWall>, WallError>;
}

} // verus!
