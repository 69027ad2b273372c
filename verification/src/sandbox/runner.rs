//! The host-side decisions of one sandboxed run: what to run and where,
//! the `container run` invocation, how a nonzero container exit is
//! classified, the operator diagnostic, and reading the workload's
//! recorded exit code back.
use vstd::prelude::*;

use crate::card::domain::is_uuid_text;
use crate::path::push_path;
use crate::sandbox::changeset::{strings_view, ChangeSet};
use crate::sandbox::driver::{
    DRIVER_FILENAME, EXIT_CD, EXIT_EXPORT, EXIT_MKDIR, EXIT_OVERLAY, GUEST_BIN, GUEST_LOWER,
    GUEST_OUT, GUEST_OVL,
};
use crate::sandbox::error::{stage_label, DriverStage, Error};
use crate::sandbox::{CONTAINER_PREFIX, DEFAULT_IMAGE, SESSION_ROOT};
use crate::text::{
    chars_of, copy_string, lines_of, lines_of_chars, push_chars, push_str, string_from,
    string_from_chars, trim_chars, trim_ws,
};

verus! {

/// A container image reference, passed verbatim to `container run`.
#[derive(Debug, Clone, PartialEq, Eq)]
pub struct ImageRef(String);

impl View for ImageRef {
    type V = Seq<char>;

    closed spec fn view(&self) -> Seq<char> {
        self.0@
    }
}

impl ImageRef {
    /// An image reference holding `reference` verbatim.
    pub fn new(reference: String) -> (r: ImageRef)
        ensures
            r@ == reference@,
    {
        ImageRef(reference)
    }

    /// The reference exactly as it will be passed to `container run`.
    pub fn as_str(&self) -> (r: &str)
        ensures
            r@ == self@,
    {
        self.0.as_str()
    }
}

impl Default for ImageRef {
    /// The digest-pinned default image.
    fn default() -> (r: ImageRef)
        ensures
            r@ == DEFAULT_IMAGE@,
    {
        ImageRef(string_from(DEFAULT_IMAGE))
    }
}

/// Default wall-clock limit of a run, in seconds (five minutes).
pub const DEFAULT_TIMEOUT_SECS: u64 = 300;

/// What to run and where.
#[derive(Debug, Clone)]
pub struct RunSpec {
    /// Argv of the workload, passed to the in-guest driver as script
    /// arguments, never spliced into shell text; must not be empty.
    pub command: Vec<String>,
    /// Host directory mounted read-only as the overlay's lower layer.
    pub worktree: String,
    /// Guest image.
    pub image: ImageRef,
    /// Wall-clock limit in seconds; the container is killed on expiry.
    pub timeout_secs: u64,
}

impl RunSpec {
    /// A spec with the defaults: pinned image, default timeout.
    pub fn new(command: Vec<String>, worktree: String) -> (r: RunSpec)
        ensures
            r.command == command,
            r.worktree == worktree,
            r.image@ == DEFAULT_IMAGE@,
            r.timeout_secs == DEFAULT_TIMEOUT_SECS,
    {
        RunSpec { command, worktree, image: ImageRef::default(), timeout_secs: DEFAULT_TIMEOUT_SECS }
    }
}

/// What one sandboxed run produced.
#[derive(Debug)]
pub struct RunOutcome {
    /// The workload's exit code, not the container's.
    pub exit_code: i32,
    /// Everything the workload wrote to stdout.
    pub stdout: Vec<u8>,
    /// Everything the workload wrote to stderr.
    pub stderr: Vec<u8>,
    /// What the run changed.
    pub changes: ChangeSet,
}

/// A run's spec is refused when its command is empty.
pub fn check_command(spec: &RunSpec) -> (r: Result<(), Error>)
    ensures
        r is Ok <==> spec.command@.len() > 0,
        r matches Err(e) ==> e == Error::EmptyCommand,
{
    if spec.command.len() == 0 {
        Err(Error::EmptyCommand)
    } else {
        Ok(())
    }
}

// ── Session ─────────────────────────────────────────────────────────────────

/// `uuid::Uuid::new_v4().to_string()`: a fresh random identifier in its
/// hyphenated lowercase text form (`new_v4` sets the version nibble to 4
/// and the RFC 9562 variant bits). Which identifier comes back is not
/// stated: it is random.
#[verifier::external_body]
fn random_run_id() -> (r: String)
    ensures
        is_uuid_text(r@, '4'),
{
    uuid::Uuid::new_v4().to_string()
}

/// The names of one run: a fresh identifier and the container name made
/// from it.
#[derive(Debug)]
pub struct SessionNames {
    pub run_id: String,
    pub container: String,
}

/// Fresh names for a run; the container name is [`CONTAINER_PREFIX`]
/// followed by the run identifier.
pub fn session_names() -> (r: SessionNames)
    ensures
        is_uuid_text(r.run_id@, '4'),
        r.container@ == CONTAINER_PREFIX@ + r.run_id@,
{
    let run_id = random_run_id();
    let mut container = string_from(CONTAINER_PREFIX);
    push_str(&mut container, run_id.as_str());
    SessionNames { run_id, container }
}

/// Where one run's session lives on the host.
#[derive(Debug)]
pub struct SessionLayout {
    /// The session directory.
    pub session: String,
    /// Its `bin` directory, mounted read-only into the guest.
    pub bin_dir: String,
    /// Its `out` directory, mounted read-write into the guest.
    pub out_dir: String,
}

/// The session directory of run `run_id` under the temporary directory
/// `tmp`, with its `bin` and `out` directories.
pub fn session_layout(tmp: &str, run_id: &str) -> (r: SessionLayout)
    ensures
        r.session@ == push_path(push_path(tmp@, SESSION_ROOT@), run_id@),
        r.bin_dir@ == push_path(r.session@, "bin"@),
        r.out_dir@ == push_path(r.session@, "out"@),
{
    let mut s = chars_of(tmp);
    let root = chars_of(SESSION_ROOT);
    crate::path::push_segment(&mut s, &root);
    let id = chars_of(run_id);
    crate::path::push_segment(&mut s, &id);
    let mut b = s.clone();
    let bin = chars_of("bin");
    crate::path::push_segment(&mut b, &bin);
    let mut o = s.clone();
    let out = chars_of("out");
    crate::path::push_segment(&mut o, &out);
    SessionLayout {
        session: string_from_chars(&s),
        bin_dir: string_from_chars(&b),
        out_dir: string_from_chars(&o),
    }
}

// ── The container invocation ────────────────────────────────────────────────

/// Guest mount posture; the read-only lower mount is a security property.
#[derive(Debug, Clone, Copy, PartialEq, Eq, Structural)]
pub enum Mount {
    ReadOnly,
    ReadWrite,
}

/// The `--mount` argument binding host `source` at guest `target`.
pub open spec fn mount_text(source: Seq<char>, target: Seq<char>, posture: Mount) -> Seq<char> {
    let base = "type=bind,source="@ + source + ",target="@ + target;
    if posture == Mount::ReadOnly {
        base + ",readonly"@
    } else {
        base
    }
}

/// The `--mount` argument binding host `source` at guest `target`.
pub fn mount_arg(source: &str, target: &str, posture: Mount) -> (r: String)
    ensures
        r@ == mount_text(source@, target@, posture),
{
    let mut arg = string_from("type=bind,source=");
    push_str(&mut arg, source);
    push_str(&mut arg, ",target=");
    push_str(&mut arg, target);
    if posture == Mount::ReadOnly {
        push_str(&mut arg, ",readonly");
    }
    arg
}

/// The arguments of `container` for one run: no network, the overlay on a
/// tmpfs, the worktree read-only, the out directory read-write, the bin
/// directory read-only, then the driver with the workload's argv.
pub open spec fn container_argv(
    command: Seq<Seq<char>>,
    image: Seq<char>,
    worktree: Seq<char>,
    name: Seq<char>,
    bin_dir: Seq<char>,
    out_dir: Seq<char>,
) -> Seq<Seq<char>> {
    seq![
        "run"@,
        "--rm"@,
        "--progress"@,
        "none"@,
        "--network"@,
        "none"@,
        "--cap-add"@,
        "CAP_SYS_ADMIN"@,
        "--tmpfs"@,
        GUEST_OVL@,
        "--name"@,
        name,
        "--mount"@,
        mount_text(worktree, GUEST_LOWER@, Mount::ReadOnly),
        "--mount"@,
        mount_text(out_dir, GUEST_OUT@, Mount::ReadWrite),
        "--mount"@,
        mount_text(bin_dir, GUEST_BIN@, Mount::ReadOnly),
        image,
        "sh"@,
        GUEST_BIN@ + "/"@ + DRIVER_FILENAME@,
    ] + command
}

/// The arguments of `container` for running `spec` against the resolved
/// `worktree` as container `name`.
pub fn container_args(
    spec: &RunSpec,
    worktree: &str,
    name: &str,
    bin_dir: &str,
    out_dir: &str,
) -> (r: Vec<String>)
    ensures
        strings_view(r@) == container_argv(
            strings_view(spec.command@),
            spec.image@,
            worktree@,
            name@,
            bin_dir@,
            out_dir@,
        ),
{
    let mut v: Vec<String> = Vec::new();
    v.push(string_from("run"));
    v.push(string_from("--rm"));
    v.push(string_from("--progress"));
    v.push(string_from("none"));
    v.push(string_from("--network"));
    v.push(string_from("none"));
    v.push(string_from("--cap-add"));
    v.push(string_from("CAP_SYS_ADMIN"));
    v.push(string_from("--tmpfs"));
    v.push(string_from(GUEST_OVL));
    v.push(string_from("--name"));
    v.push(string_from(name));
    v.push(string_from("--mount"));
    v.push(mount_arg(worktree, GUEST_LOWER, Mount::ReadOnly));
    v.push(string_from("--mount"));
    v.push(mount_arg(out_dir, GUEST_OUT, Mount::ReadWrite));
    v.push(string_from("--mount"));
    v.push(mount_arg(bin_dir, GUEST_BIN, Mount::ReadOnly));
    v.push(string_from(spec.image.as_str()));
    v.push(string_from("sh"));
    let mut driver = string_from(GUEST_BIN);
    push_str(&mut driver, "/");
    push_str(&mut driver, DRIVER_FILENAME);
    v.push(driver);
    let ghost head = strings_view(v@);
    proof {
        assert(head =~= container_argv(
            Seq::empty(),
            spec.image@,
            worktree@,
            name@,
            bin_dir@,
            out_dir@,
        ));
    }
    let mut i: usize = 0;
    while i < spec.command.len()
        invariant
            i <= spec.command.len(),
            strings_view(v@) == head + strings_view(spec.command@).take(i as int),
        decreases spec.command.len() - i,
    {
        let ghost before = v@;
        v.push(copy_string(&spec.command[i]));
        proof {
            assert(strings_view(v@) =~= strings_view(before).push(spec.command@[i as int]@));
            assert(strings_view(spec.command@).take(i + 1) =~= strings_view(spec.command@).take(
                i as int,
            ).push(spec.command@[i as int]@));
        }
        i = i + 1;
    }
    proof {
        assert(strings_view(spec.command@).take(spec.command.len() as int) =~= strings_view(
            spec.command@,
        ));
        assert(head + strings_view(spec.command@) =~= container_argv(
            strings_view(spec.command@),
            spec.image@,
            worktree@,
            name@,
            bin_dir@,
            out_dir@,
        ));
    }
    v
}

// ── Classifying a failed run ────────────────────────────────────────────────

/// The driver stage that a nonzero container exit code reveals: the
/// driver's pre-workload codes name their stage; the export code names the
/// export when the workload's exit code was recorded and readable;
/// anything else is a container-level failure.
pub open spec fn exit_stage(code: Option<i32>, workload_exit: Option<i32>) -> DriverStage {
    match code {
        Some(c) => if c == EXIT_MKDIR {
            DriverStage::Mkdir
        } else if c == EXIT_OVERLAY {
            DriverStage::OverlayMount
        } else if c == EXIT_CD {
            DriverStage::Cd
        } else if c == EXIT_EXPORT {
            match workload_exit {
                Some(w) => DriverStage::Export { workload_exit: w },
                None => DriverStage::Container,
            }
        } else {
            DriverStage::Container
        },
        None => DriverStage::Container,
    }
}

/// The driver's failure codes are distinct: each names its own stage, and
/// an export failure carries the workload's recorded exit code.
pub proof fn law_each_driver_code_names_its_stage(workload_exit: Option<i32>)
    ensures
        exit_stage(Some(EXIT_MKDIR), workload_exit) == DriverStage::Mkdir,
        exit_stage(Some(EXIT_OVERLAY), workload_exit) == DriverStage::OverlayMount,
        exit_stage(Some(EXIT_CD), workload_exit) == DriverStage::Cd,
        workload_exit matches Some(w) ==> exit_stage(Some(EXIT_EXPORT), workload_exit)
            == (DriverStage::Export { workload_exit: w }),
        exit_stage(None, workload_exit) == DriverStage::Container,
{
}

/// Classify a nonzero container exit by the driver's exit-code protocol.
pub fn classify_exit(code: Option<i32>, workload_exit: Option<i32>) -> (r: DriverStage)
    ensures
        r == exit_stage(code, workload_exit),
{
    match code {
        Some(c) => {
            if c == EXIT_MKDIR {
                DriverStage::Mkdir
            } else if c == EXIT_OVERLAY {
                DriverStage::OverlayMount
            } else if c == EXIT_CD {
                DriverStage::Cd
            } else if c == EXIT_EXPORT {
                match workload_exit {
                    Some(w) => DriverStage::Export { workload_exit: w },
                    None => DriverStage::Container,
                }
            } else {
                DriverStage::Container
            }
        },
        None => DriverStage::Container,
    }
}

/// How many lines of the container's stderr the diagnostic quotes.
pub const STDERR_TAIL_LINES: usize = 5;

/// `String::from_utf8_lossy`: the bytes decoded as UTF-8, each invalid
/// sequence replaced by U+FFFD.
pub uninterp spec fn utf8_lossy(b: Seq<u8>) -> Seq<char>;

/// Decodes bytes as UTF-8 with invalid sequences replaced, which depends on
/// the bytes alone (`String::from_utf8_lossy`).
#[verifier::external_body]
fn decode_lossy(b: &Vec<u8>) -> (r: String)
    ensures
        r@ == utf8_lossy(b@),
{
    String::from_utf8_lossy(b.as_slice()).into_owned()
}

/// Decodes bytes as UTF-8, replacing invalid sequences (see
/// [`utf8_lossy`]).
pub fn decode_bytes(b: &Vec<u8>) -> (r: String)
    ensures
        r@ == utf8_lossy(b@),
{
    decode_lossy(b)
}

/// The last `n` items of `s`, or all of them when there are fewer.
pub open spec fn last_n(s: Seq<Seq<char>>, n: nat) -> Seq<Seq<char>> {
    if s.len() <= n {
        s
    } else {
        s.subrange(s.len() - n, s.len() as int)
    }
}

/// The items of `s` joined with `sep` between them.
pub open spec fn join(s: Seq<Seq<char>>, sep: Seq<char>) -> Seq<char>
    decreases s.len(),
{
    if s.len() == 0 {
        Seq::empty()
    } else if s.len() == 1 {
        s[0]
    } else {
        join(s.drop_last(), sep) + sep + s.last()
    }
}

/// The operator diagnostic for a failed driver stage: the stage, then the
/// last lines of the container's stderr joined by ` | `, on one line.
pub open spec fn tail_text(stage: DriverStage, stderr: Seq<u8>) -> Seq<char> {
    "daemar-sandbox: driver failed at "@ + stage_label(stage) + ": "@ + join(
        last_n(lines_of(utf8_lossy(stderr)), STDERR_TAIL_LINES as nat),
        " | "@,
    ) + "\n"@
}

/// The operator diagnostic for a failed driver stage, quoting a bounded
/// tail of the container's stderr.
pub fn emit_stderr_tail(stage: DriverStage, stderr: &Vec<u8>) -> (r: String)
    ensures
        r@ == tail_text(stage, stderr@),
{
    let text = decode_lossy(stderr);
    let chars = chars_of(text.as_str());
    let lines = lines_of_chars(&chars);
    let ghost lv = lines@.map_values(|l: Vec<char>| l@);
    let start: usize = if lines.len() <= STDERR_TAIL_LINES {
        0
    } else {
        lines.len() - STDERR_TAIL_LINES
    };
    let ghost tail = last_n(lv, STDERR_TAIL_LINES as nat);
    proof {
        assert(tail =~= lv.subrange(start as int, lv.len() as int));
    }
    let mut body: Vec<char> = Vec::new();
    let mut i: usize = start;
    while i < lines.len()
        invariant
            start <= i <= lines.len(),
            lv == lines@.map_values(|l: Vec<char>| l@),
            body@ == join(lv.subrange(start as int, i as int), " | "@),
        decreases lines.len() - i,
    {
        let ghost before = body@;
        if i > start {
            body.push(' ');
            body.push('|');
            body.push(' ');
        }
        let mut k: usize = 0;
        let ghost mid = body@;
        while k < lines[i].len()
            invariant
                k <= lines@[i as int]@.len(),
                i < lines@.len(),
                body@ == mid + lines@[i as int]@.subrange(0, k as int),
            decreases lines@[i as int]@.len() - k,
        {
            proof {
                assert(lines@[i as int]@.subrange(0, k + 1) == lines@[i as int]@.subrange(
                    0,
                    k as int,
                ).push(lines@[i as int]@[k as int]));
            }
            body.push(lines[i][k]);
            k = k + 1;
        }
        proof {
            assert(lines@[i as int]@.subrange(0, lines@[i as int]@.len() as int) =~= lines@[i as int]@);
            let s1 = lv.subrange(start as int, i + 1);
            assert(s1.drop_last() =~= lv.subrange(start as int, i as int));
            assert(s1.last() == lv[i as int]);
            reveal_strlit(" | ");
            if i > start {
                assert(mid =~= before + " | "@);
            } else {
                assert(s1 =~= seq![lv[i as int]]);
            }
        }
        i = i + 1;
    }
    let mut out = string_from("daemar-sandbox: driver failed at ");
    let label = stage.label();
    push_str(&mut out, label.as_str());
    push_str(&mut out, ": ");
    push_chars(&mut out, &body);
    push_str(&mut out, "\n");
    out
}

/// The failure of a run whose container exited nonzero, and the
/// diagnostic to print for it.
pub fn driver_failure(code: Option<i32>, workload_exit: Option<i32>, stderr: &Vec<u8>) -> (r: (
    Error,
    String,
))
    ensures
        r.0 == (Error::Driver { stage: exit_stage(code, workload_exit), code }),
        r.1@ == tail_text(exit_stage(code, workload_exit), stderr@),
{
    let stage = classify_exit(code, workload_exit);
    let line = emit_stderr_tail(stage, stderr);
    (Error::Driver { stage, code }, line)
}

// ── The recorded exit code ──────────────────────────────────────────────────

/// Whether every character of `s` is an ASCII digit.
pub open spec fn all_digits(s: Seq<char>) -> bool {
    forall|i: int| 0 <= i < s.len() ==> '0' <= #[trigger] s[i] && s[i] <= '9'
}

/// The value of a run of ASCII digits.
pub open spec fn digits_value(s: Seq<char>) -> int
    decreases s.len(),
{
    if s.len() == 0 {
        0
    } else {
        digits_value(s.drop_last()) * 10 + (s.last() as int - 48)
    }
}

/// The integer that `s` writes, as Rust's integer parsing reads it: an
/// optional `+` or `-`, then at least one ASCII digit, nothing else.
pub open spec fn int_value(s: Seq<char>) -> Option<int> {
    if s.len() > 0 && (s[0] == '+' || s[0] == '-') {
        let d = s.drop_first();
        if d.len() > 0 && all_digits(d) {
            Some(
                if s[0] == '-' {
                    -digits_value(d)
                } else {
                    digits_value(d)
                },
            )
        } else {
            None
        }
    } else if s.len() > 0 && all_digits(s) {
        Some(digits_value(s))
    } else {
        None
    }
}

/// `str::parse::<i32>`: the integer `s` writes, when it fits in an `i32`.
pub open spec fn parse_i32(s: Seq<char>) -> Option<i32> {
    match int_value(s) {
        Some(v) => if i32::MIN <= v <= i32::MAX {
            Some(v as i32)
        } else {
            None
        },
        None => None,
    }
}

pub(crate) proof fn lemma_digits_value_grows(s: Seq<char>)
    requires
        all_digits(s),
    ensures
        digits_value(s) >= 0,
        s.len() > 0 ==> digits_value(s) >= digits_value(s.drop_last()),
    decreases s.len(),
{
    if s.len() > 0 {
        assert(all_digits(s.drop_last())) by {
            assert forall|i: int| 0 <= i < s.drop_last().len() implies '0' <= #[trigger] s.drop_last()[i]
                && s.drop_last()[i] <= '9' by {
                assert(s.drop_last()[i] == s[i]);
            }
        }
        lemma_digits_value_grows(s.drop_last());
        assert('0' <= s[s.len() - 1]);
    }
}

pub(crate) proof fn lemma_digits_prefix(s: Seq<char>, k: int)
    requires
        all_digits(s),
        0 <= k <= s.len(),
    ensures
        all_digits(s.take(k)),
        digits_value(s.take(k)) <= digits_value(s),
    decreases s.len() - k,
{
    assert forall|i: int| 0 <= i < s.take(k).len() implies '0' <= #[trigger] s.take(k)[i]
        && s.take(k)[i] <= '9' by {
        assert(s.take(k)[i] == s[i]);
    }
    if k < s.len() {
        lemma_digits_prefix(s, k + 1);
        assert(s.take(k + 1).drop_last() =~= s.take(k));
        lemma_digits_value_grows(s.take(k + 1));
    } else {
        assert(s.take(k) =~= s);
    }
}

/// Parses `v` as an `i32` the way `str::parse` does.
pub fn parse_i32_chars(v: &Vec<char>) -> (r: Option<i32>)
    ensures
        r == parse_i32(v@),
{
    let n = v.len();
    if n == 0 {
        return None;
    }
    let neg = v[0] == '-';
    let signed = v[0] == '+' || v[0] == '-';
    let start: usize = if signed {
        1
    } else {
        0
    };
    if start >= n {
        return None;
    }
    let ghost d = v@.subrange(start as int, n as int);
    proof {
        if signed {
            assert(d =~= v@.drop_first());
        } else {
            assert(d =~= v@);
        }
    }
    let mut mag: u64 = 0;
    let mut i: usize = start;
    while i < n
        invariant
            start <= i <= n,
            n == v@.len(),
            start < n,
            d == v@.subrange(start as int, n as int),
            signed == (v@[0] == '+' || v@[0] == '-'),
            neg == (v@[0] == '-'),
            signed ==> d == v@.drop_first() && start == 1,
            !signed ==> d == v@ && start == 0,
            all_digits(d.take(i - start)),
            mag as int == digits_value(d.take(i - start)),
            mag <= 0x8000_0000,
        decreases n - i,
    {
        let c = v[i];
        if c < '0' || c > '9' {
            proof {
                assert(d[i - start] == c);
                assert(!all_digits(d));
            }
            return None;
        }
        let digit = (c as u32 - 48) as u64;
        let next = mag * 10 + digit;
        proof {
            assert(digit as int == c as int - 48);
            assert(d.take(i - start + 1).drop_last() =~= d.take(i - start));
            assert(d.take(i - start + 1).last() == c);
            assert(digits_value(d.take(i - start + 1)) == digits_value(d.take(i - start)) * 10 + (c
                as int - 48));
            assert(all_digits(d.take(i - start + 1))) by {
                assert forall|j: int| 0 <= j < d.take(i - start + 1).len() implies '0'
                    <= #[trigger] d.take(i - start + 1)[j] && d.take(i - start + 1)[j] <= '9' by {
                    if j < i - start {
                        assert(d.take(i - start + 1)[j] == d.take(i - start)[j]);
                    }
                }
            }
        }
        if next > 0x8000_0000 {
            // Too large for an i32 whatever the remaining characters are.
            proof {
                if all_digits(d) {
                    lemma_digits_prefix(d, i - start + 1);
                }
            }
            return None;
        }
        mag = next;
        i = i + 1;
    }
    proof {
        assert(d.take(n - start) =~= d);
    }
    if neg {
        Some((0i64 - mag as i64) as i32)
    } else if mag <= 0x7fff_ffff {
        Some(mag as i32)
    } else {
        None
    }
}

/// The workload's exit code as recorded: the file's text, trimmed, read as
/// an `i32`.
pub fn parse_exit_code(raw: &str) -> (r: Option<i32>)
    ensures
        r == parse_i32(trim_ws(raw@)),
{
    let v = chars_of(raw);
    let t = trim_chars(&v);
    parse_i32_chars(&t)
}

/// The workload's exit code, or the failure of an unreadable record.
pub fn exit_code_from(raw: String) -> (r: Result<i32, Error>)
    ensures
        parse_i32(trim_ws(raw@)) matches Some(c) ==> r == Ok::<i32, Error>(c),
        parse_i32(trim_ws(raw@)) is None ==> r == Err::<i32, Error>(Error::ExitCode { raw }),
{
    match parse_exit_code(raw.as_str()) {
        Some(c) => Ok(c),
        None => Err(Error::ExitCode { raw }),
    }
}

} // verus!
