//! The factory's configuration: the environment, parsed once. The tower
//! fetches its own secrets: the process environment first; on a miss, the
//! decrypted secrets file, read once.
use vstd::prelude::*;

use crate::factory::provider::Provider;
use crate::factory::roster::{agent, agent_spec, role_at, role_slot, Role};
use crate::factory::wall::{StagePolicy, WallMode};
use crate::path::{push_path, push_segment};
use crate::text::{
    chars_of, copy_string, lines_of, lines_of_chars, push_str, str_eq, string_from,
    string_from_chars, trim_chars, trim_ws, is_ws,
};

verus! {

/// How the configuration is refused.
#[derive(Debug, Clone, PartialEq, Eq)]
pub enum ConfigError {
    /// A required value is not set; names it.
    Missing(String),
    /// The secrets file existed but could not be decrypted or parsed.
    Secrets(String),
    /// An effort binding carried a value outside the closed set.
    BadEffort { name: String, value: String },
    /// `DAEMAR_CAGE` carried something other than 1, 0, or nothing.
    BadCage { value: String },
}

/// The message of a configuration refusal.
pub open spec fn config_error_text(e: ConfigError) -> Seq<char> {
    match e {
        ConfigError::Missing(name) => name@
            + " is not set — export it, or set DAEMAR_HOME so the tower can decrypt its own secrets"@,
        ConfigError::Secrets(detail) => detail@,
        ConfigError::BadEffort { name, value } => name@ + "='"@ + value@
            + "' is not a reasoning effort — low, medium, or high"@,
        ConfigError::BadCage { value } => "DAEMAR_CAGE='"@ + value@
            + "' is not a cage mode — 1 (caged) or 0/unset (in-process)"@,
    }
}

impl ConfigError {
    /// The message describing this refusal.
    pub fn message(&self) -> (r: String)
        ensures
            r@ == config_error_text(*self),
    {
        match self {
            ConfigError::Missing(name) => {
                let mut s = copy_string(name);
                push_str(
                    &mut s,
                    " is not set — export it, or set DAEMAR_HOME so the tower can decrypt its own secrets",
                );
                s
            },
            ConfigError::Secrets(detail) => copy_string(detail),
            ConfigError::BadEffort { name, value } => {
                let mut s = copy_string(name);
                push_str(&mut s, "='");
                push_str(&mut s, value.as_str());
                push_str(&mut s, "' is not a reasoning effort — low, medium, or high");
                s
            },
            ConfigError::BadCage { value } => {
                let mut s = string_from("DAEMAR_CAGE='");
                push_str(&mut s, value.as_str());
                push_str(&mut s, "' is not a cage mode — 1 (caged) or 0/unset (in-process)");
                s
            },
        }
    }
}

/// Reasoning effort, the closed set the provider accepts.
#[derive(Debug, Clone, Copy, PartialEq, Eq, Structural)]
pub enum ReasoningEffort {
    Low,
    Medium,
    High,
}

/// The wire name of an effort.
pub open spec fn effort_text(e: ReasoningEffort) -> Seq<char> {
    match e {
        ReasoningEffort::Low => "low"@,
        ReasoningEffort::Medium => "medium"@,
        ReasoningEffort::High => "high"@,
    }
}

/// The effort a configured value names, if any.
pub open spec fn effort_named(v: Seq<char>) -> Option<ReasoningEffort> {
    if v == "low"@ {
        Some(ReasoningEffort::Low)
    } else if v == "medium"@ {
        Some(ReasoningEffort::Medium)
    } else if v == "high"@ {
        Some(ReasoningEffort::High)
    } else {
        None
    }
}

impl ReasoningEffort {
    /// The wire name: `low`, `medium` or `high`.
    pub fn as_str(&self) -> (r: &'static str)
        ensures
            r@ == effort_text(*self),
    {
        match self {
            ReasoningEffort::Low => "low",
            ReasoningEffort::Medium => "medium",
            ReasoningEffort::High => "high",
        }
    }

    /// Parses a configured value; `name` names the variable in the refusal.
    pub fn parse(name: &str, value: &str) -> (r: Result<ReasoningEffort, ConfigError>)
        ensures
            effort_named(value@) matches Some(e) ==> r == Ok::<ReasoningEffort, ConfigError>(e),
            effort_named(value@) is None ==> (r matches Err(ConfigError::BadEffort { name: n, value: v }) && n@ == name@ && v@ == value@),
    {
        if str_eq(value, "low") {
            Ok(ReasoningEffort::Low)
        } else if str_eq(value, "medium") {
            Ok(ReasoningEffort::Medium)
        } else if str_eq(value, "high") {
            Ok(ReasoningEffort::High)
        } else {
            Err(ConfigError::BadEffort { name: string_from(name), value: string_from(value) })
        }
    }
}

// ── The environment ─────────────────────────────────────────────────────────

/// A set value, or `None` for an unset or empty one.
pub open spec fn nonempty(v: Option<Seq<char>>) -> Option<Seq<char>> {
    match v {
        Some(s) => if s.len() == 0 {
            None
        } else {
            Some(s)
        },
        None => None,
    }
}

/// The text of an optional string.
pub open spec fn opt_view(o: Option<String>) -> Option<Seq<char>> {
    match o {
        Some(s) => Some(s@),
        None => None,
    }
}

/// An environment value, or `None` when it is unset or empty.
pub fn env_value(raw: Option<String>) -> (r: Option<String>)
    ensures
        opt_view(r) == nonempty(opt_view(raw)),
{
    match raw {
        Some(s) => if s.as_str().is_empty() {
            None
        } else {
            Some(s)
        },
        None => None,
    }
}

/// The engineer's name: `USER`, or `engineer` when unset.
pub fn engineer(user: Option<String>) -> (r: String)
    ensures
        nonempty(opt_view(user)) matches Some(u) ==> r@ == u,
        nonempty(opt_view(user)) is None ==> r@ == "engineer"@,
{
    match env_value(user) {
        Some(u) => u,
        None => string_from("engineer"),
    }
}

/// The tower's root, `DAEMAR_HOME`, when set.
pub fn home(daemar_home: Option<String>) -> (r: Option<String>)
    ensures
        opt_view(r) == nonempty(opt_view(daemar_home)),
{
    env_value(daemar_home)
}

/// A relative default resolved under the tower's root when there is one.
pub open spec fn homed(home: Option<Seq<char>>, relative: Seq<char>) -> Seq<char> {
    match home {
        Some(root) => push_path(root, relative),
        None => relative,
    }
}

/// A relative default resolved under `DAEMAR_HOME` when set; the bare
/// default otherwise.
pub fn homed_default(daemar_home: Option<String>, relative: &str) -> (r: String)
    ensures
        r@ == homed(nonempty(opt_view(daemar_home)), relative@),
{
    match home(daemar_home) {
        Some(root) => {
            let mut p = chars_of(root.as_str());
            let rel = chars_of(relative);
            push_segment(&mut p, &rel);
            string_from_chars(&p)
        },
        None => string_from(relative),
    }
}

/// A directory: its own variable when set, else a homed default.
pub open spec fn dir_setting(own: Option<String>, daemar_home: Option<String>, relative: Seq<char>) -> Seq<char> {
    match nonempty(opt_view(own)) {
        Some(v) => v,
        None => homed(nonempty(opt_view(daemar_home)), relative),
    }
}

/// The ledgers directory: `DAEMAR_LEDGERS`, else `ledgers` under the
/// tower's root.
pub fn ledgers_dir(ledgers: Option<String>, daemar_home: Option<String>) -> (r: String)
    ensures
        r@ == dir_setting(ledgers, daemar_home, "ledgers"@),
{
    match env_value(ledgers) {
        Some(v) => v,
        None => homed_default(daemar_home, "ledgers"),
    }
}

/// The airframe registry: `DAEMAR_AIRFRAMES`, else `airframes.toml` under
/// the tower's root.
pub fn airframes_path(airframes: Option<String>, daemar_home: Option<String>) -> (r: String)
    ensures
        r@ == dir_setting(airframes, daemar_home, "airframes.toml"@),
{
    match env_value(airframes) {
        Some(v) => v,
        None => homed_default(daemar_home, "airframes.toml"),
    }
}

/// Where stage worktrees are materialized: `DAEMAR_WORKTREES`, else
/// `worktrees` under the tower's root.
pub fn worktrees_dir(worktrees: Option<String>, daemar_home: Option<String>) -> (r: String)
    ensures
        r@ == dir_setting(worktrees, daemar_home, "worktrees"@),
{
    match env_value(worktrees) {
        Some(v) => v,
        None => homed_default(daemar_home, "worktrees"),
    }
}

// ── Secrets ─────────────────────────────────────────────────────────────────

/// One line of a decrypted secrets file, read as shell-flavoured dot-env:
/// blank lines and `#` comments carry nothing; an `export ` prefix and
/// matched surrounding quotes belong to the shell, not the value.
pub open spec fn secret_line(line: Seq<char>) -> Option<(Seq<char>, Seq<char>)> {
    let t = trim_ws(line);
    if t.len() == 0 || t[0] == '#' {
        None
    } else {
        let body = if t.len() >= 7 && t.take(7) == "export "@ {
            trim_start(t.skip(7))
        } else {
            t
        };
        match crate::text::first_index(body, '=') {
            None => None,
            Some(i) => {
                let key = trim_ws(body.take(i));
                let v = trim_ws(body.skip(i + 1));
                Some((key, unquote(v)))
            },
        }
    }
}

/// `s` without leading whitespace.
pub open spec fn trim_start(s: Seq<char>) -> Seq<char> {
    crate::text::trim_start_ws(s)
}

/// A value without one pair of matched surrounding quotes.
pub open spec fn unquote(v: Seq<char>) -> Seq<char> {
    if v.len() >= 2 && v[0] == '"' && v.last() == '"' {
        v.subrange(1, v.len() - 1)
    } else if v.len() >= 2 && v[0] == '\'' && v.last() == '\'' {
        v.subrange(1, v.len() - 1)
    } else {
        v
    }
}

/// Matched surrounding quotes belong to the shell, not the value: a
/// secrets line `KEY="v"` or `KEY='v'` reads as the key with exactly the
/// text between the quotes as its value, whatever that text holds.
pub proof fn law_surrounding_quotes_belong_to_the_shell(key: Seq<char>, v: Seq<char>, q: char)
    requires
        q == '"' || q == '\'',
        key.len() > 0,
        key[0] != '#',
        forall|j: int| 0 <= j < key.len() ==> !is_ws(#[trigger] key[j]) && key[j] != '=',
    ensures
        secret_line(key + seq!['='] + seq![q] + v + seq![q]) == Some((key, v)),
{
    let quoted = seq![q] + v + seq![q];
    let line = key + seq!['='] + quoted;
    assert(line =~= key + seq!['='] + seq![q] + v + seq![q]);
    assert(line[0] == key[0]);
    assert(line.last() == q);
    crate::text::lemma_trim_ws_fixed(line);
    let t = trim_ws(line);
    assert(t == line);
    reveal_strlit("export ");
    if t.len() >= 7 {
        if key.len() >= 7 {
            assert(t[6] == key[6]);
            assert(t.take(7)[6] != "export "@[6]);
        } else {
            let k = key.len() as int;
            assert(t[k] == '=');
            assert(t.take(7)[k] != "export "@[k]);
        }
        assert(t.take(7) != "export "@);
    }
    let k = key.len() as int;
    assert forall|j: int| 0 <= j < k implies t[j] != '=' by {
        assert(t[j] == key[j]);
    }
    assert(t[k] == '=');
    crate::text::lemma_first_index_at(t, '=', k);
    assert(t.take(k) =~= key);
    crate::text::lemma_trim_ws_fixed(key);
    assert(t.skip(k + 1) =~= quoted);
    assert(quoted[0] == q && quoted.last() == q);
    crate::text::lemma_trim_ws_fixed(quoted);
    assert(quoted.subrange(1, quoted.len() - 1) =~= v);
}

/// A value not wrapped in one matched pair of quotes reads as written:
/// `KEY=v` gives `v`, a lone or unmatched quote included.
pub proof fn law_unwrapped_values_read_as_written(key: Seq<char>, v: Seq<char>)
    requires
        key.len() > 0,
        key[0] != '#',
        forall|j: int| 0 <= j < key.len() ==> !is_ws(#[trigger] key[j]) && key[j] != '=',
        v.len() > 0,
        !is_ws(v[0]),
        !is_ws(v.last()),
        !(v.len() >= 2 && v[0] == v.last() && (v[0] == '"' || v[0] == '\'')),
    ensures
        secret_line(key + seq!['='] + v) == Some((key, v)),
{
    let line = key + seq!['='] + v;
    assert(line[0] == key[0]);
    assert(line.last() == v.last());
    crate::text::lemma_trim_ws_fixed(line);
    let t = trim_ws(line);
    reveal_strlit("export ");
    if t.len() >= 7 {
        if key.len() >= 7 {
            assert(t[6] == key[6]);
            assert(t.take(7)[6] != "export "@[6]);
        } else {
            let k = key.len() as int;
            assert(t[k] == '=');
            assert(t.take(7)[k] != "export "@[k]);
        }
        assert(t.take(7) != "export "@);
    }
    let k = key.len() as int;
    assert forall|j: int| 0 <= j < k implies t[j] != '=' by {
        assert(t[j] == key[j]);
    }
    assert(t[k] == '=');
    crate::text::lemma_first_index_at(t, '=', k);
    assert(t.take(k) =~= key);
    crate::text::lemma_trim_ws_fixed(key);
    assert(t.skip(k + 1) =~= v);
    crate::text::lemma_trim_ws_fixed(v);
}

/// The key-value pairs of a decrypted secrets text, in line order.
pub open spec fn secret_pairs(lines: Seq<Seq<char>>) -> Seq<(Seq<char>, Seq<char>)>
    decreases lines.len(),
{
    if lines.len() == 0 {
        Seq::empty()
    } else {
        match secret_line(lines.last()) {
            Some(p) => secret_pairs(lines.drop_last()).push(p),
            None => secret_pairs(lines.drop_last()),
        }
    }
}

/// The views of key-value pairs.
pub open spec fn pairs_view(v: Seq<(String, String)>) -> Seq<(Seq<char>, Seq<char>)> {
    v.map_values(|p: (String, String)| (p.0@, p.1@))
}

/// Drops one pair of matched surrounding quotes (executable form of
/// [`unquote`]).
fn unquote_chars(v: Vec<char>) -> (r: Vec<char>)
    ensures
        r@ == unquote(v@),
{
    let n = v.len();
    if n >= 2 && ((v[0] == '"' && v[n - 1] == '"') || (v[0] == '\'' && v[n - 1] == '\'')) {
        crate::text::slice_chars(&v, 1, n - 1)
    } else {
        v
    }
}

/// One line of a secrets text (executable form of [`secret_line`]).
fn secret_line_of(line: &Vec<char>) -> (r: Option<(String, String)>)
    ensures
        r matches Some(p) ==> secret_line(line@) == Some((p.0@, p.1@)),
        r is None ==> secret_line(line@) is None,
{
    let t = trim_chars(line);
    if t.len() == 0 || t[0] == '#' {
        return None;
    }
    let prefix = chars_of("export ");
    let mut has_prefix = t.len() >= 7;
    let mut k: usize = 0;
    while has_prefix && k < 7
        invariant
            k <= 7,
            has_prefix ==> t@.len() >= 7,
            prefix@ == "export "@,
            has_prefix ==> forall|j: int| 0 <= j < k ==> t@[j] == prefix@[j],
            !has_prefix ==> !(t@.len() >= 7 && t@.take(7) == "export "@),
        decreases 7 - k,
    {
        proof {
            reveal_strlit("export ");
        }
        if t[k] != prefix[k] {
            has_prefix = false;
            proof {
                if t@.len() >= 7 && t@.take(7) == "export "@ {
                    assert(t@.take(7)[k as int] == t@[k as int]);
                }
            }
        }
        k = k + 1;
    }
    proof {
        reveal_strlit("export ");
        if has_prefix {
            assert(k == 7);
            assert(t@.take(7) =~= prefix@);
        }
    }
    let body = if has_prefix {
        let rest = crate::text::slice_chars(&t, 7, t.len());
        proof {
            assert(rest@ =~= t@.skip(7));
        }
        crate::text::trim_start_chars(&rest)
    } else {
        t
    };
    match crate::text::find_char(&body, '=') {
        None => None,
        Some(i) => {
            let k0 = crate::text::slice_chars(&body, 0, i);
            let v0 = crate::text::slice_chars(&body, i + 1, body.len());
            proof {
                assert(k0@ =~= body@.take(i as int));
                assert(v0@ =~= body@.skip(i + 1));
            }
            let key = trim_chars(&k0);
            let value = unquote_chars(trim_chars(&v0));
            Some((string_from_chars(&key), string_from_chars(&value)))
        },
    }
}

/// The key-value pairs of a decrypted secrets text, in line order; a key
/// that occurs twice is read with its last value.
pub fn parse_secrets(text: &str) -> (r: Vec<(String, String)>)
    ensures
        pairs_view(r@) == secret_pairs(lines_of(text@)),
{
    let chars = chars_of(text);
    let lines = lines_of_chars(&chars);
    let ghost lv = lines@.map_values(|l: Vec<char>| l@);
    let mut out: Vec<(String, String)> = Vec::new();
    let mut i: usize = 0;
    proof {
        assert(lv.take(0) =~= Seq::<Seq<char>>::empty());
    }
    while i < lines.len()
        invariant
            i <= lines@.len(),
            lv == lines@.map_values(|l: Vec<char>| l@),
            pairs_view(out@) == secret_pairs(lv.take(i as int)),
        decreases lines@.len() - i,
    {
        proof {
            assert(lv.take(i + 1).drop_last() =~= lv.take(i as int));
            assert(lv.take(i + 1).last() == lines@[i as int]@);
        }
        match secret_line_of(&lines[i]) {
            Some(p) => {
                let ghost before = out@;
                out.push(p);
                proof {
                    assert(pairs_view(out@) =~= pairs_view(before).push((p.0@, p.1@)));
                }
            },
            None => {},
        }
        i = i + 1;
    }
    proof {
        assert(lv.take(lines@.len() as int) =~= lv);
    }
    out
}

/// The value of the first entry named `name`, when set and non-empty: the
/// process environment's reading.
pub open spec fn env_lookup(vars: Seq<(Seq<char>, Seq<char>)>, name: Seq<char>) -> Option<Seq<char>>
    decreases vars.len(),
{
    if vars.len() == 0 {
        None
    } else if vars[0].0 == name {
        nonempty(Some(vars[0].1))
    } else {
        env_lookup(vars.drop_first(), name)
    }
}

/// The value of the last entry named `name`: the secrets map's reading,
/// where a later line replaces an earlier one.
pub open spec fn secret_lookup(pairs: Seq<(Seq<char>, Seq<char>)>, name: Seq<char>) -> Option<Seq<char>>
    decreases pairs.len(),
{
    if pairs.len() == 0 {
        None
    } else if pairs.last().0 == name {
        Some(pairs.last().1)
    } else {
        secret_lookup(pairs.drop_last(), name)
    }
}

/// A value as the tower reads it: the environment first, then the
/// secrets.
pub open spec fn vault_lookup(env: Seq<(Seq<char>, Seq<char>)>, secrets: Seq<(Seq<char>, Seq<char>)>, name: Seq<char>) -> Option<Seq<char>> {
    match env_lookup(env, name) {
        Some(v) => Some(v),
        None => secret_lookup(secrets, name),
    }
}

/// Reads a variable from the environment (executable form of
/// [`env_lookup`]).
pub fn env_get(env: &Vec<(String, String)>, name: &str) -> (r: Option<String>)
    ensures
        opt_view(r) == env_lookup(pairs_view(env@), name@),
{
    let ghost ev = pairs_view(env@);
    let mut i: usize = 0;
    proof {
        assert(ev.skip(0) =~= ev);
    }
    while i < env.len()
        invariant
            i <= env@.len(),
            ev == pairs_view(env@),
            env_lookup(ev.skip(i as int), name@) == env_lookup(ev, name@),
        decreases env@.len() - i,
    {
        proof {
            assert(ev.skip(i as int).drop_first() =~= ev.skip(i + 1));
            assert(ev.skip(i as int)[0] == ev[i as int]);
        }
        if str_eq(env[i].0.as_str(), name) {
            let v = copy_string(&env[i].1);
            return env_value(Some(v));
        }
        i = i + 1;
    }
    None
}

/// Reads a secret (executable form of [`secret_lookup`]).
pub fn secret_get(secrets: &Vec<(String, String)>, name: &str) -> (r: Option<String>)
    ensures
        opt_view(r) == secret_lookup(pairs_view(secrets@), name@),
{
    let ghost sv = pairs_view(secrets@);
    let mut i: usize = secrets.len();
    proof {
        assert(sv.take(secrets.len() as int) =~= sv);
    }
    while i > 0
        invariant
            i <= secrets@.len(),
            sv == pairs_view(secrets@),
            secret_lookup(sv.take(i as int), name@) == secret_lookup(sv, name@),
        decreases i,
    {
        proof {
            assert(sv.take(i as int).drop_last() =~= sv.take(i - 1));
            assert(sv.take(i as int).last() == sv[i - 1]);
        }
        if str_eq(secrets[i - 1].0.as_str(), name) {
            return Some(copy_string(&secrets[i - 1].1));
        }
        i = i - 1;
    }
    proof {
        assert(sv.take(0) =~= Seq::<(Seq<char>, Seq<char>)>::empty());
    }
    None
}

/// A value as the tower reads it, once the secrets are at hand; `None`
/// outside when the environment misses and the secrets have not been
/// read yet.
pub fn vault_get(env: &Vec<(String, String)>, secrets: Option<&Vec<(String, String)>>, name: &str) -> (r: Option<Option<String>>)
    ensures
        env_lookup(pairs_view(env@), name@) matches Some(v) ==> (r matches Some(Some(s)) && s@ == v),
        env_lookup(pairs_view(env@), name@) is None && secrets is None ==> r is None,
        env_lookup(pairs_view(env@), name@) is None ==> (secrets matches Some(sec) ==> (r matches Some(o) && opt_view(o) == secret_lookup(pairs_view(sec@), name@))),
{
    match env_get(env, name) {
        Some(v) => Some(Some(v)),
        None => match secrets {
            None => None,
            Some(sec) => Some(secret_get(sec, name)),
        },
    }
}

// ── The configuration ───────────────────────────────────────────────────────

/// The environment variables the factory reads directly (never from the
/// secrets).
#[derive(Debug, Clone)]
pub struct DirectEnv {
    pub user: Option<String>,
    pub daemar_home: Option<String>,
    pub ledgers: Option<String>,
    pub airframes: Option<String>,
    pub worktrees: Option<String>,
    pub cage: Option<String>,
}

/// The factory's configuration.
#[derive(Debug, Clone)]
pub struct Config {
    pub provider: Provider,
    pub ledgers: String,
    pub airframes: String,
    /// Root for stage worktrees.
    pub worktrees: String,
    /// Whether tool execution is walled for read-only seats.
    pub cage: WallMode,
    /// The sandbox shape.
    pub sandbox: StagePolicy,
    pub engineer: String,
    /// Model per role, by the roster's fixed order.
    pub models: [String; 4],
    /// Reasoning effort per role, by the roster's fixed order.
    pub efforts: [ReasoningEffort; 4],
}

/// How resolving the configuration ended.
#[derive(Debug)]
pub enum FromEnv {
    /// Resolved, or refused.
    Ready(Result<Config, ConfigError>),
    /// A value the environment does not hold is needed: read the secrets,
    /// then resolve again with them.
    NeedSecrets,
}

/// The default provider endpoint.
pub const DEFAULT_BASE_URL: &'static str = "https://api.openai.com/v1";

/// The cage dial's reading: unset or `0` is off, `1` is on.
pub open spec fn cage_mode(v: Option<Seq<char>>) -> Option<WallMode> {
    match v {
        None => Some(WallMode::Off),
        Some(s) => if s == "0"@ {
            Some(WallMode::Off)
        } else if s == "1"@ {
            Some(WallMode::On)
        } else {
            None
        },
    }
}

/// An effort binding's reading: unset means the default.
pub open spec fn effort_setting(v: Option<Seq<char>>, default: ReasoningEffort) -> Option<ReasoningEffort> {
    match v {
        None => Some(default),
        Some(s) => effort_named(s),
    }
}

/// Reads an effort binding.
fn effort_binding(value: Option<String>, name: &str, default: ReasoningEffort) -> (r: Result<ReasoningEffort, ConfigError>)
    ensures
        effort_setting(opt_view(value), default) matches Some(e) ==> r == Ok::<ReasoningEffort, ConfigError>(e),
        effort_setting(opt_view(value), default) is None ==> (r matches Err(ConfigError::BadEffort { name: n, value: v }) && n@ == name@ && opt_view(value) == Some(v@)),
{
    match value {
        None => Ok(default),
        Some(v) => ReasoningEffort::parse(name, v.as_str()),
    }
}

impl Config {
    /// The airframe bound to the role at `slot` of the roster's order.
    pub open spec fn model_at(&self, slot: int) -> Seq<char> {
        self.models@[slot]@
    }

    /// The effort bound to the role at `slot` of the roster's order.
    pub open spec fn effort_at(&self, slot: int) -> ReasoningEffort {
        self.efforts@[slot]
    }

    /// The airframe bound to a role.
    pub fn model_for(&self, role: Role) -> (r: &String)
        ensures
            r@ == self.model_at(crate::factory::roster::role_slot(role)),
    {
        &self.models[role.slot()]
    }

    /// The reasoning effort bound to a role.
    pub fn effort_for(&self, role: Role) -> (r: ReasoningEffort)
        ensures
            r == self.effort_at(crate::factory::roster::role_slot(role)),
    {
        self.efforts[role.slot()]
    }
}

/// The mathematical form of a [`ConfigError`].
pub enum ConfigErrorV {
    Missing(Seq<char>),
    Secrets(Seq<char>),
    BadEffort(Seq<char>, Seq<char>),
    BadCage(Seq<char>),
}

impl View for ConfigError {
    type V = ConfigErrorV;

    open spec fn view(&self) -> ConfigErrorV {
        match self {
            ConfigError::Missing(n) => ConfigErrorV::Missing(n@),
            ConfigError::Secrets(d) => ConfigErrorV::Secrets(d@),
            ConfigError::BadEffort { name, value } => ConfigErrorV::BadEffort(name@, value@),
            ConfigError::BadCage { value } => ConfigErrorV::BadCage(value@),
        }
    }
}

/// The environment variable binding a role's model.
pub open spec fn model_env_of(slot: int) -> Seq<char> {
    agent_spec(role_at(slot)).2
}

/// The environment variable binding a role's effort.
pub open spec fn effort_env_of(slot: int) -> Seq<char> {
    agent_spec(role_at(slot)).3
}

/// The first refusal among the roles from `slot` on: a role with no
/// model (neither its own binding nor `DAEMAR_MODEL`), or an effort
/// binding outside the closed set; the model is checked first.
pub open spec fn role_error(env: Seq<(Seq<char>, Seq<char>)>, sec: Seq<(Seq<char>, Seq<char>)>, slot: int) -> Option<ConfigErrorV>
    decreases 4 - slot,
{
    if slot < 0 || slot >= 4 {
        None
    } else if vault_lookup(env, sec, model_env_of(slot)) is None && vault_lookup(env, sec, "DAEMAR_MODEL"@) is None {
        Some(ConfigErrorV::Missing(model_env_of(slot) + " (or DAEMAR_MODEL)"@))
    } else if vault_lookup(env, sec, effort_env_of(slot)) is Some && effort_named(
        vault_lookup(env, sec, effort_env_of(slot))->0,
    ) is None {
        Some(ConfigErrorV::BadEffort(effort_env_of(slot), vault_lookup(env, sec, effort_env_of(slot))->0))
    } else {
        role_error(env, sec, slot + 1)
    }
}

/// The first refusal of the configuration, in the order the values are
/// read: the global effort, each role, the API key, the cage dial.
pub open spec fn config_error(env: Seq<(Seq<char>, Seq<char>)>, sec: Seq<(Seq<char>, Seq<char>)>, cage: Option<Seq<char>>) -> Option<ConfigErrorV> {
    let de = vault_lookup(env, sec, "DAEMAR_EFFORT"@);
    if de is Some && effort_named(de->0) is None {
        Some(ConfigErrorV::BadEffort("DAEMAR_EFFORT"@, de->0))
    } else if role_error(env, sec, 0) is Some {
        role_error(env, sec, 0)
    } else if vault_lookup(env, sec, "OPENAI_API_KEY"@) is None {
        Some(ConfigErrorV::Missing("OPENAI_API_KEY"@))
    } else if cage_mode(nonempty(cage)) is None {
        Some(ConfigErrorV::BadCage(cage->0))
    } else {
        None
    }
}

/// The model bound to the role at `slot`: its own binding, else
/// `DAEMAR_MODEL`.
pub open spec fn model_value(env: Seq<(Seq<char>, Seq<char>)>, sec: Seq<(Seq<char>, Seq<char>)>, slot: int) -> Option<Seq<char>> {
    match vault_lookup(env, sec, model_env_of(slot)) {
        Some(m) => Some(m),
        None => vault_lookup(env, sec, "DAEMAR_MODEL"@),
    }
}

/// The effort bound to the role at `slot`: its own binding, else
/// `DAEMAR_EFFORT`, else medium.
pub open spec fn effort_value(env: Seq<(Seq<char>, Seq<char>)>, sec: Seq<(Seq<char>, Seq<char>)>, slot: int) -> Option<ReasoningEffort> {
    match effort_setting(vault_lookup(env, sec, "DAEMAR_EFFORT"@), ReasoningEffort::Medium) {
        Some(d) => effort_setting(vault_lookup(env, sec, effort_env_of(slot)), d),
        None => None,
    }
}

/// Whether reading the roles from `slot` on, with no secrets in hand,
/// meets a variable the environment does not hold before a refusal ends
/// the reading: each role's model binding, then its effort binding.
pub open spec fn role_reads_miss(env: Seq<(Seq<char>, Seq<char>)>, slot: int) -> bool
    decreases 4 - slot,
{
    if slot < 0 || slot >= 4 {
        false
    } else if env_lookup(env, model_env_of(slot)) is None || env_lookup(env, effort_env_of(slot)) is None {
        true
    } else if effort_named(env_lookup(env, effort_env_of(slot))->0) is None {
        false
    } else {
        role_reads_miss(env, slot + 1)
    }
}

/// Whether resolving from the environment alone meets a variable it does
/// not hold before a refusal ends the reading, the values read in order:
/// `DAEMAR_MODEL`, `DAEMAR_EFFORT`, each role's bindings,
/// `DAEMAR_BASE_URL`, `OPENAI_API_KEY`. Exactly then are the secrets
/// needed.
pub open spec fn env_reads_miss(env: Seq<(Seq<char>, Seq<char>)>) -> bool {
    if env_lookup(env, "DAEMAR_MODEL"@) is None || env_lookup(env, "DAEMAR_EFFORT"@) is None {
        true
    } else if effort_named(env_lookup(env, "DAEMAR_EFFORT"@)->0) is None {
        false
    } else if role_reads_miss(env, 0) {
        true
    } else if role_error(env, Seq::empty(), 0) is Some {
        false
    } else {
        env_lookup(env, "DAEMAR_BASE_URL"@) is None || env_lookup(env, "OPENAI_API_KEY"@) is None
    }
}

/// Each role flies its own model binding, else `DAEMAR_MODEL`, and
/// reasons at its own effort binding, else `DAEMAR_EFFORT`, else medium:
/// stated of a configuration whose slots hold what resolving `env` and
/// `sec` gives them, as [`Config::from_env`] promises of its result.
pub proof fn law_each_role_takes_its_own_binding_else_the_default(
    c: Config,
    env: Seq<(Seq<char>, Seq<char>)>,
    sec: Seq<(Seq<char>, Seq<char>)>,
    role: Role,
)
    requires
        forall|i: int| 0 <= i < 4 ==> Some(#[trigger] c.model_at(i)) == model_value(env, sec, i),
        forall|i: int| 0 <= i < 4 ==> Some(#[trigger] c.effort_at(i)) == effort_value(env, sec, i),
    ensures
        c.model_at(role_slot(role)) == (match vault_lookup(env, sec, agent_spec(role).2) {
            Some(m) => m,
            None => vault_lookup(env, sec, "DAEMAR_MODEL"@)->0,
        }),
        c.effort_at(role_slot(role)) == (match vault_lookup(env, sec, agent_spec(role).3) {
            Some(v) => effort_named(v)->0,
            None => match vault_lookup(env, sec, "DAEMAR_EFFORT"@) {
                Some(g) => effort_named(g)->0,
                None => ReasoningEffort::Medium,
            },
        }),
{
    let i = role_slot(role);
    assert(0 <= i < 4 && role_at(i) == role);
    assert(Some(c.model_at(i)) == model_value(env, sec, i));
    assert(Some(c.effort_at(i)) == effort_value(env, sec, i));
}

/// The secrets in hand, or none.
pub open spec fn secrets_view(secrets: Option<&Vec<(String, String)>>) -> Seq<(Seq<char>, Seq<char>)> {
    match secrets {
        Some(s) => pairs_view(s@),
        None => Seq::empty(),
    }
}

/// Reads a value, or reports that the secrets are needed.
fn need(env: &Vec<(String, String)>, secrets: Option<&Vec<(String, String)>>, name: &str) -> (r: Option<Option<String>>)
    ensures
        r matches Some(o) ==> opt_view(o) == vault_lookup(pairs_view(env@), secrets_view(secrets), name@),
        r is None <==> (secrets is None && env_lookup(pairs_view(env@), name@) is None),
{
    let r = vault_get(env, secrets, name);
    proof {
        if env_lookup(pairs_view(env@), name@) is None && secrets is None {
            assert(secret_lookup(Seq::<(Seq<char>, Seq<char>)>::empty(), name@) is None);
        }
    }
    r
}

/// The model and effort of one role.
fn resolve_role(
    env: &Vec<(String, String)>,
    secrets: Option<&Vec<(String, String)>>,
    slot: usize,
    default_model: &Option<String>,
    default_effort: ReasoningEffort,
) -> (r: Option<Result<(String, ReasoningEffort), ConfigError>>)
    requires
        slot < 4,
        opt_view(*default_model) == vault_lookup(pairs_view(env@), secrets_view(secrets), "DAEMAR_MODEL"@),
        effort_setting(vault_lookup(pairs_view(env@), secrets_view(secrets), "DAEMAR_EFFORT"@), ReasoningEffort::Medium) == Some(default_effort),
    ensures
        r is None <==> (secrets is None && (env_lookup(pairs_view(env@), model_env_of(slot as int)) is None
            || env_lookup(pairs_view(env@), effort_env_of(slot as int)) is None)),
        r matches Some(res) ==> ({
            let ev = pairs_view(env@);
            let sv = secrets_view(secrets);
            if model_value(ev, sv, slot as int) is None {
                res matches Err(e) && e@ == ConfigErrorV::Missing(model_env_of(slot as int) + " (or DAEMAR_MODEL)"@)
            } else if effort_value(ev, sv, slot as int) is None {
                res matches Err(e) && e@ == ConfigErrorV::BadEffort(effort_env_of(slot as int), vault_lookup(ev, sv, effort_env_of(slot as int))->0)
            } else {
                res matches Ok((m, e)) && Some(m@) == model_value(ev, sv, slot as int) && Some(e) == effort_value(ev, sv, slot as int)
            }
        }),
{
    let role = Role::all()[slot];
    let a = agent(role);
    let own = match need(env, secrets, a.model_env) {
        None => {
            return None;
        },
        Some(o) => o,
    };
    let model = match own {
        Some(m) => m,
        None => match default_model {
            Some(m) => copy_string(m),
            None => {
                let mut n = string_from(a.model_env);
                push_str(&mut n, " (or DAEMAR_MODEL)");
                return Some(Err(ConfigError::Missing(n)));
            },
        },
    };
    let eff = match need(env, secrets, a.effort_env) {
        None => {
            return None;
        },
        Some(o) => o,
    };
    match effort_binding(eff, a.effort_env, default_effort) {
        Err(e) => Some(Err(e)),
        Ok(e) => Some(Ok((model, e))),
    }
}

impl Config {
    /// Resolve the configuration from the environment `env`, the variables
    /// read directly (`direct`), and the decrypted secrets once in hand. A
    /// value is read from the environment first, then from the secrets;
    /// the secrets are asked for only when a value the environment does
    /// not hold is needed. Each role's model is its own binding, else
    /// `DAEMAR_MODEL`; its effort its own binding, else `DAEMAR_EFFORT`,
    /// else medium.
    pub fn from_env(env: &Vec<(String, String)>, direct: &DirectEnv, secrets: Option<&Vec<(String, String)>>) -> (r: FromEnv)
        ensures
            r is NeedSecrets ==> secrets is None,
            secrets is None ==> (r is NeedSecrets <==> env_reads_miss(pairs_view(env@))),
            r matches FromEnv::Ready(res) ==> ({
                let ev = pairs_view(env@);
                let sv = secrets_view(secrets);
                &&& config_error(ev, sv, opt_view(direct.cage)) matches Some(e) ==> (res matches Err(x) && x@ == e)
                &&& config_error(ev, sv, opt_view(direct.cage)) is None ==> (res matches Ok(c) && {
                    &&& forall|i: int| 0 <= i < 4 ==> Some(#[trigger] c.model_at(i)) == model_value(ev, sv, i)
                    &&& forall|i: int| 0 <= i < 4 ==> Some(#[trigger] c.effort_at(i)) == effort_value(ev, sv, i)
                    &&& Some(c.provider.api_key@) == vault_lookup(ev, sv, "OPENAI_API_KEY"@)
                    &&& c.provider.base_url@ == (match vault_lookup(ev, sv, "DAEMAR_BASE_URL"@) {
                        Some(u) => u,
                        None => DEFAULT_BASE_URL@,
                    })
                    &&& Some(c.cage) == cage_mode(nonempty(opt_view(direct.cage)))
                    &&& c.ledgers@ == dir_setting(direct.ledgers, direct.daemar_home, "ledgers"@)
                    &&& c.airframes@ == dir_setting(direct.airframes, direct.daemar_home, "airframes.toml"@)
                    &&& c.worktrees@ == dir_setting(direct.worktrees, direct.daemar_home, "worktrees"@)
                    &&& c.engineer@ == (match nonempty(opt_view(direct.user)) {
                        Some(u) => u,
                        None => "engineer"@,
                    })
                    &&& c.sandbox.image@ == crate::factory::wall::DEFAULT_CAGE_IMAGE@
                    &&& c.sandbox.user@ == crate::factory::wall::DEFAULT_CAGE_USER@
                })
            }),
    {
        let ghost ev = pairs_view(env@);
        let ghost sv = secrets_view(secrets);
        let default_model = match need(env, secrets, "DAEMAR_MODEL") {
            None => {
                return FromEnv::NeedSecrets;
            },
            Some(o) => o,
        };
        let de = match need(env, secrets, "DAEMAR_EFFORT") {
            None => {
                return FromEnv::NeedSecrets;
            },
            Some(o) => o,
        };
        let default_effort = match effort_binding(de, "DAEMAR_EFFORT", ReasoningEffort::Medium) {
            Err(e) => {
                return FromEnv::Ready(Err(e));
            },
            Ok(e) => e,
        };
        let mut models: Vec<String> = Vec::new();
        let mut efforts: Vec<ReasoningEffort> = Vec::new();
        let mut slot: usize = 0;
        while slot < 4
            invariant
                slot <= 4,
                ev == pairs_view(env@),
                sv == secrets_view(secrets),
                opt_view(default_model) == vault_lookup(ev, sv, "DAEMAR_MODEL"@),
                effort_setting(vault_lookup(ev, sv, "DAEMAR_EFFORT"@), ReasoningEffort::Medium) == Some(default_effort),
                models@.len() == slot,
                efforts@.len() == slot,
                forall|i: int| 0 <= i < slot ==> Some(#[trigger] models@[i]@) == model_value(ev, sv, i),
                forall|i: int| 0 <= i < slot ==> Some(#[trigger] efforts@[i]) == effort_value(ev, sv, i),
                role_error(ev, sv, slot as int) == role_error(ev, sv, 0),
                secrets is None ==> (env_reads_miss(ev) == (role_reads_miss(ev, slot as int) || (role_error(
                    ev,
                    sv,
                    slot as int,
                ) is None && (env_lookup(ev, "DAEMAR_BASE_URL"@) is None || env_lookup(ev, "OPENAI_API_KEY"@)
                    is None)))),
            decreases 4 - slot,
        {
            match resolve_role(env, secrets, slot, &default_model, default_effort) {
                None => {
                    return FromEnv::NeedSecrets;
                },
                Some(Err(e)) => {
                    proof {
                        reveal_strlit("DAEMAR_EFFORT");
                        reveal_strlit("OPENAI_API_KEY");
                        reveal_strlit("DAEMAR_MODEL");
                    }
                    return FromEnv::Ready(Err(e));
                },
                Some(Ok((m, e))) => {
                    models.push(m);
                    efforts.push(e);
                },
            }
            slot = slot + 1;
        }
        let base_url = match need(env, secrets, "DAEMAR_BASE_URL") {
            None => {
                return FromEnv::NeedSecrets;
            },
            Some(Some(u)) => u,
            Some(None) => string_from(DEFAULT_BASE_URL),
        };
        let api_key = match need(env, secrets, "OPENAI_API_KEY") {
            None => {
                return FromEnv::NeedSecrets;
            },
            Some(Some(k)) => k,
            Some(None) => {
                return FromEnv::Ready(Err(ConfigError::Missing(string_from("OPENAI_API_KEY"))));
            },
        };
        let cage = match env_value(direct.cage.clone()) {
            None => WallMode::Off,
            Some(v) => {
                if str_eq(v.as_str(), "0") {
                    WallMode::Off
                } else if str_eq(v.as_str(), "1") {
                    WallMode::On
                } else {
                    return FromEnv::Ready(Err(ConfigError::BadCage { value: v }));
                }
            },
        };
        let config = Config {
            provider: Provider { base_url, api_key },
            ledgers: ledgers_dir(direct.ledgers.clone(), direct.daemar_home.clone()),
            airframes: airframes_path(direct.airframes.clone(), direct.daemar_home.clone()),
            worktrees: worktrees_dir(direct.worktrees.clone(), direct.daemar_home.clone()),
            cage,
            sandbox: StagePolicy::default(),
            engineer: engineer(direct.user.clone()),
            models: [models[0].clone(), models[1].clone(), models[2].clone(), models[3].clone()],
            efforts: [efforts[0], efforts[1], efforts[2], efforts[3]],
        };
        FromEnv::Ready(Ok(config))
    }
}

// ── Pricing ─────────────────────────────────────────────────────────────────

/// How an airframe's cost is known: priced by the registry, or never
/// silently unpriced.
#[derive(Debug, Clone, PartialEq, Eq)]
pub enum Pricing {
    /// The registry prices the airframe.
    Priced,
    /// The registry does not list the airframe.
    Unregistered { model: String },
    /// The registry could not be read.
    RegistryBroken { detail: String },
}

impl Pricing {
    /// The pricing of `model` given what reading the registry gave: whether
    /// it prices the model, or why it could not be read.
    pub fn resolve(registry: Result<bool, String>, model: &str) -> (r: Pricing)
        ensures
            registry == Ok::<bool, String>(true) ==> r == Pricing::Priced,
            registry == Ok::<bool, String>(false) ==> (r matches Pricing::Unregistered { model: m } && m@ == model@),
            registry matches Err(d) ==> r == (Pricing::RegistryBroken { detail: d }),
    {
        match registry {
            Ok(true) => Pricing::Priced,
            Ok(false) => Pricing::Unregistered { model: string_from(model) },
            Err(detail) => Pricing::RegistryBroken { detail },
        }
    }

    /// What the ledger should say about an unpriced airframe; nothing for a
    /// priced one.
    pub fn complaint(&self) -> (r: Option<String>)
        ensures
            *self == Pricing::Priced ==> r is None,
            self matches Pricing::Unregistered { model } ==> (r matches Some(t) && t@ == "airframe "@ + model@ + " is not in airframes.toml; cost unrecorded"@),
            self matches Pricing::RegistryBroken { detail } ==> (r matches Some(t) && t@ == "airframe registry unreadable; cost unrecorded — "@ + detail@),
    {
        match self {
            Pricing::Priced => None,
            Pricing::Unregistered { model } => {
                let mut s = string_from("airframe ");
                push_str(&mut s, model.as_str());
                push_str(&mut s, " is not in airframes.toml; cost unrecorded");
                Some(s)
            },
            Pricing::RegistryBroken { detail } => {
                let mut s = string_from("airframe registry unreadable; cost unrecorded — ");
                push_str(&mut s, detail.as_str());
                Some(s)
            },
        }
    }
}

} // verus!
