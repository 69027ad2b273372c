//! The roster: who fills each seat. A workflow stage names a role; the
//! roster binds that role to an agent: persona, model binding, tool
//! access.
use vstd::prelude::*;

verus! {

/// The seats workflows can require.
#[derive(Debug, Clone, Copy, PartialEq, Eq, Structural)]
pub enum Role {
    Scout,
    Planner,
    Responder,
    Builder,
}

/// The number of roles.
pub const ROLE_COUNT: usize = 4;

/// A role's position in the roster's fixed order: scout, planner,
/// responder, builder.
pub open spec fn role_slot(role: Role) -> int {
    match role {
        Role::Scout => 0,
        Role::Planner => 1,
        Role::Responder => 2,
        Role::Builder => 3,
    }
}

/// The role at a position of the roster's fixed order.
pub open spec fn role_at(slot: int) -> Role {
    if slot == 0 {
        Role::Scout
    } else if slot == 1 {
        Role::Planner
    } else if slot == 2 {
        Role::Responder
    } else {
        Role::Builder
    }
}

impl Role {
    /// Every role, in the roster's fixed order.
    pub fn all() -> (r: [Role; 4])
        ensures
            forall|i: int| 0 <= i < 4 ==> r@[i] == role_at(i),
    {
        [Role::Scout, Role::Planner, Role::Responder, Role::Builder]
    }

    /// This role's position in the roster's fixed order.
    pub fn slot(&self) -> (r: usize)
        ensures
            r == role_slot(*self),
            r < ROLE_COUNT,
            role_at(r as int) == *self,
    {
        match self {
            Role::Scout => 0,
            Role::Planner => 1,
            Role::Responder => 2,
            Role::Builder => 3,
        }
    }
}

/// What an agent may reach.
#[derive(Debug, Clone, Copy, PartialEq, Eq, Structural)]
pub enum ToolAccess {
    /// No tools at all.
    Toolless,
    /// The read-only tools.
    ReadOnly,
    /// Read plus the write primitives (edit, write); a seat with this
    /// access flies walled unconditionally.
    ReadWrite,
}

/// The wire name of a tool access.
pub open spec fn access_text(a: ToolAccess) -> Seq<char> {
    match a {
        ToolAccess::Toolless => "none"@,
        ToolAccess::ReadOnly => "read_only"@,
        ToolAccess::ReadWrite => "read_write"@,
    }
}

impl ToolAccess {
    /// The wire name: `none`, `read_only` or `read_write`.
    pub fn as_str(&self) -> (r: &'static str)
        ensures
            r@ == access_text(*self),
    {
        match self {
            ToolAccess::Toolless => "none",
            ToolAccess::ReadOnly => "read_only",
            ToolAccess::ReadWrite => "read_write",
        }
    }
}

/// Who an agent is: identity, persona, model binding, tool access.
#[derive(Debug, Clone, Copy)]
pub struct AgentDef {
    /// The name recorded as `owner` on the ledger.
    pub name: &'static str,
    /// The system prompt.
    pub system: &'static str,
    /// Environment variable that binds this agent's airframe;
    /// `DAEMAR_MODEL` is the fallback.
    pub model_env: &'static str,
    /// Environment variable that binds this agent's reasoning effort;
    /// `DAEMAR_EFFORT` is the fallback, and `medium` the default.
    pub effort_env: &'static str,
    /// What the agent may reach.
    pub tools: ToolAccess,
}

/// The scout's system prompt.
pub const SCOUT_SYSTEM: &'static str = "You are daemar's scout: read-only reconnaissance over one repository (the territory). Use the tools to find where things live and how they connect. Never guess file contents — read them. When you have enough evidence, reply in plain text with your findings: what lives where (cite paths), how the pieces connect, and anything surprising. Be concise and concrete.";

/// The planner's system prompt.
pub const PLANNER_SYSTEM: &'static str = "You are daemar's planner. Investigate the territory with the tools before planning — never plan from imagination: read the files your plan will touch. Then produce a concise, implementable plan that cites real paths (with line references where they help): what to change, where, in what order, and how to verify. Do not implement anything.";

/// The responder's system prompt.
pub const RESPONDER_SYSTEM: &'static str = "You are daemar's responder. Answer the request directly and completely, in plain text. If a plan is provided, follow it.";

/// The builder's system prompt.
pub const BUILDER_SYSTEM: &'static str = "You are daemar's builder: careful modification of one repository worktree. Read before you touch — edit refuses files you have not read at their current content. Make the smallest change that satisfies the request, match the surrounding code's style exactly, and verify your work by re-reading what you changed. When you are done, reply in plain text describing exactly what you changed and why — the diff itself is computed and reviewed separately.";

/// The agent bound to each role: its name, persona, the environment
/// variables binding its airframe and effort, and its tool access.
pub open spec fn agent_spec(role: Role) -> (Seq<char>, Seq<char>, Seq<char>, Seq<char>, ToolAccess) {
    match role {
        Role::Scout => (
            "scout"@,
            SCOUT_SYSTEM@,
            "DAEMAR_SCOUT_MODEL"@,
            "DAEMAR_SCOUT_EFFORT"@,
            ToolAccess::ReadOnly,
        ),
        Role::Planner => (
            "planner"@,
            PLANNER_SYSTEM@,
            "DAEMAR_PLAN_MODEL"@,
            "DAEMAR_PLAN_EFFORT"@,
            ToolAccess::ReadOnly,
        ),
        Role::Responder => (
            "responder"@,
            RESPONDER_SYSTEM@,
            "DAEMAR_RESPOND_MODEL"@,
            "DAEMAR_RESPOND_EFFORT"@,
            ToolAccess::Toolless,
        ),
        Role::Builder => (
            "builder"@,
            BUILDER_SYSTEM@,
            "DAEMAR_BUILD_MODEL"@,
            "DAEMAR_BUILD_EFFORT"@,
            ToolAccess::ReadWrite,
        ),
    }
}

/// The agent that fills a role's seat.
pub fn agent(role: Role) -> (r: AgentDef)
    ensures
        (r.name@, r.system@, r.model_env@, r.effort_env@, r.tools) == agent_spec(role),
{
    match role {
        Role::Scout => AgentDef {
            name: "scout",
            system: SCOUT_SYSTEM,
            model_env: "DAEMAR_SCOUT_MODEL",
            effort_env: "DAEMAR_SCOUT_EFFORT",
            tools: ToolAccess::ReadOnly,
        },
        Role::Planner => AgentDef {
            name: "planner",
            system: PLANNER_SYSTEM,
            model_env: "DAEMAR_PLAN_MODEL",
            effort_env: "DAEMAR_PLAN_EFFORT",
            tools: ToolAccess::ReadOnly,
        },
        Role::Responder => AgentDef {
            name: "responder",
            system: RESPONDER_SYSTEM,
            model_env: "DAEMAR_RESPOND_MODEL",
            effort_env: "DAEMAR_RESPOND_EFFORT",
            tools: ToolAccess::Toolless,
        },
        Role::Builder => AgentDef {
            name: "builder",
            system: BUILDER_SYSTEM,
            model_env: "DAEMAR_BUILD_MODEL",
            effort_env: "DAEMAR_BUILD_EFFORT",
            tools: ToolAccess::ReadWrite,
        },
    }
}

} // verus!
