//! The stage's tools, as far as they decide: which tool a seat may call,
//! what a read shows, how an edit replaces, what a write reports, and the
//! content hash that pins what was seen. Failures are outcomes the loop
//! continues past, never aborts.
use vstd::prelude::*;

use crate::factory::roster::ToolAccess;
use crate::path::{
    comps_view, components_of, copy_component, path_components, render, render_components, PathComponent,
};
use crate::sandbox::runner::utf8_lossy;
use crate::text::{
    chars_of, copy_string, dec, find_seq, lines_of, lines_of_chars, occurs_at, push_chars,
    push_str, push_u64, str_eq, string_from, string_from_chars,
};

verus! {

/// The most lines a read shows.
pub const READ_LINE_CAP: u64 = 2000;

/// The most bytes of one line a read shows.
pub const READ_LINE_BYTES: usize = 2000;

/// The most entries a listing shows.
pub const LIST_CAP: usize = 500;

/// The most matches a search shows.
pub const SEARCH_MATCH_CAP: usize = 50;

/// A tool call's outcome; crosses the wall as JSON, losslessly.
#[derive(Debug, Clone, PartialEq, Eq)]
pub struct ToolOutcome {
    pub content: String,
    pub is_error: bool,
    /// Content hash of what was read, or a mutation's post-image.
    pub hash: String,
    /// A mutation's pre-image hash, when there was one.
    pub before_hash: Option<String>,
}

impl ToolOutcome {
    /// A successful outcome with nothing hashed.
    pub fn ok(content: String) -> (r: ToolOutcome)
        ensures
            r.content == content,
            !r.is_error,
            r.hash@.len() == 0,
            r.before_hash is None,
    {
        ToolOutcome { content, is_error: false, hash: String::new(), before_hash: None }
    }

    /// An error outcome.
    pub fn error(content: String) -> (r: ToolOutcome)
        ensures
            r.content == content,
            r.is_error,
            r.hash@.len() == 0,
            r.before_hash is None,
    {
        ToolOutcome { content, is_error: true, hash: String::new(), before_hash: None }
    }
}

/// An error outcome whose message is `prefix` then `detail`.
fn error_with(prefix: &str, detail: &str) -> (r: ToolOutcome)
    ensures
        r.content@ == prefix@ + detail@,
        r.is_error,
        r.hash@.len() == 0,
        r.before_hash is None,
{
    let mut s = string_from(prefix);
    push_str(&mut s, detail);
    ToolOutcome::error(s)
}

// ── The content hash ────────────────────────────────────────────────────────

/// The SHA-256 digest of a byte string.
pub uninterp spec fn sha256_of(b: Seq<u8>) -> Seq<u8>;

/// SHA-256 of `bytes` (`sha2::Sha256`): 32 bytes, a function of the input
/// alone.
#[verifier::external_body]
fn sha256(bytes: &Vec<u8>) -> (r: Vec<u8>)
    ensures
        r@ == sha256_of(bytes@),
        r@.len() == 32,
{
    <sha2::Sha256 as sha2::Digest>::digest(bytes.as_slice()).to_vec()
}

/// The lowercase hexadecimal digit for `d` (below 16).
pub open spec fn hex_digit(d: int) -> char {
    if d < 10 {
        (48 + d) as char
    } else {
        (87 + d) as char
    }
}

/// The lowercase hexadecimal rendering of bytes, two digits each.
pub open spec fn hex_of(b: Seq<u8>) -> Seq<char>
    decreases b.len(),
{
    if b.len() == 0 {
        Seq::empty()
    } else {
        hex_of(b.drop_last()) + seq![hex_digit(b.last() as int / 16), hex_digit(b.last() as int % 16)]
    }
}

fn hex_char(d: u8) -> (c: char)
    requires
        d < 16,
    ensures
        c == hex_digit(d as int),
{
    if d < 10 {
        (48 + d) as char
    } else {
        (87 + d) as char
    }
}

/// The content hash of a byte string: the first 16 hexadecimal digits of
/// its SHA-256 digest, enough to pin what was seen.
pub open spec fn content_hash_of(b: Seq<u8>) -> Seq<char> {
    hex_of(sha256_of(b)).take(16)
}

/// The content hash of a byte string.
pub fn content_hash(bytes: &Vec<u8>) -> (r: String)
    ensures
        r@ == content_hash_of(bytes@),
        r@.len() == 16,
{
    let d = sha256(bytes);
    let mut out: Vec<char> = Vec::new();
    let mut i: usize = 0;
    while i < d.len()
        invariant
            i <= d@.len(),
            d@.len() == 32,
            out@ == hex_of(d@.take(i as int)),
        decreases d@.len() - i,
    {
        proof {
            assert(d@.take(i + 1).drop_last() =~= d@.take(i as int));
            assert(d@.take(i + 1).last() == d@[i as int]);
        }
        let b = d[i];
        out.push(hex_char(b / 16));
        out.push(hex_char(b % 16));
        i = i + 1;
    }
    proof {
        assert(d@.take(32) =~= d@);
        lemma_hex_len(d@);
    }
    let t = crate::text::slice_chars(&out, 0, 16);
    string_from_chars(&t)
}

proof fn lemma_hex_len(b: Seq<u8>)
    ensures
        hex_of(b).len() == 2 * b.len(),
    decreases b.len(),
{
    if b.len() > 0 {
        lemma_hex_len(b.drop_last());
    }
}

// ── UTF-8 lengths ───────────────────────────────────────────────────────────

/// How many bytes UTF-8 spends on a character.
pub open spec fn char_utf8_len(c: char) -> nat {
    if (c as u32) < 0x80 {
        1
    } else if (c as u32) < 0x800 {
        2
    } else if (c as u32) < 0x10000 {
        3
    } else {
        4
    }
}

/// How many bytes UTF-8 spends on a text (`str::len`).
pub open spec fn utf8_len(s: Seq<char>) -> nat
    decreases s.len(),
{
    if s.len() == 0 {
        0
    } else {
        utf8_len(s.drop_last()) + char_utf8_len(s.last())
    }
}

fn char_len(c: char) -> (r: usize)
    ensures
        r == char_utf8_len(c),
{
    let u = c as u32;
    if u < 0x80 {
        1
    } else if u < 0x800 {
        2
    } else if u < 0x10000 {
        3
    } else {
        4
    }
}

/// The byte length of a text, saturating at `usize::MAX`.
pub fn byte_len(s: &str) -> (r: usize)
    ensures
        utf8_len(s@) <= usize::MAX ==> r == utf8_len(s@),
        utf8_len(s@) > usize::MAX ==> r == usize::MAX,
{
    let v = chars_of(s);
    let mut n: usize = 0;
    let mut i: usize = 0;
    while i < v.len()
        invariant
            i <= v@.len(),
            utf8_len(v@.take(i as int)) <= usize::MAX ==> n == utf8_len(v@.take(i as int)),
            utf8_len(v@.take(i as int)) > usize::MAX ==> n == usize::MAX,
        decreases v@.len() - i,
    {
        proof {
            assert(v@.take(i + 1).drop_last() =~= v@.take(i as int));
        }
        let l = char_len(v[i]);
        n = if n > usize::MAX - l {
            usize::MAX
        } else {
            n + l
        };
        i = i + 1;
    }
    proof {
        assert(v@.take(v@.len() as int) =~= v@);
    }
    n
}

/// The longest prefix of `s` that fits in `max` bytes: what byte-bounded
/// truncation at a character boundary keeps.
pub open spec fn fit(s: Seq<char>, max: nat) -> Seq<char>
    decreases s.len(),
{
    if s.len() == 0 {
        s
    } else if char_utf8_len(s[0]) <= max {
        seq![s[0]] + fit(s.drop_first(), (max - char_utf8_len(s[0])) as nat)
    } else {
        Seq::empty()
    }
}

/// Byte-bounded truncation that never splits a UTF-8 sequence: the text is
/// cut at the last character boundary within `max_bytes`.
pub fn truncate_at_boundary(text: &mut String, max_bytes: usize)
    ensures
        final(text)@ == fit(old(text)@, max_bytes as nat),
{
    let v = chars_of(text.as_str());
    let mut out: Vec<char> = Vec::new();
    let mut room: usize = max_bytes;
    let mut i: usize = 0;
    proof {
        assert(v@.skip(0) =~= v@);
    }
    while i < v.len()
        invariant
            i <= v@.len(),
            v@ == old(text)@,
            out@ + fit(v@.skip(i as int), room as nat) == fit(v@, max_bytes as nat),
        decreases v@.len() - i,
    {
        proof {
            assert(v@.skip(i as int)[0] == v@[i as int]);
            assert(v@.skip(i as int).drop_first() =~= v@.skip(i + 1));
        }
        let l = char_len(v[i]);
        if l > room {
            proof {
                assert(out@ + Seq::<char>::empty() =~= out@);
            }
            *text = string_from_chars(&out);
            return;
        }
        let ghost before = out@;
        out.push(v[i]);
        proof {
            assert(out@ =~= before + seq![v@[i as int]]);
            assert(before + (seq![v@[i as int]] + fit(v@.skip(i + 1), (room - l) as nat)) =~= out@
                + fit(v@.skip(i + 1), (room - l) as nat));
        }
        room = room - l;
        i = i + 1;
    }
    proof {
        assert(v@.skip(v@.len() as int).len() == 0);
        assert(out@ + fit(v@.skip(v@.len() as int), room as nat) =~= out@);
    }
    *text = string_from_chars(&out);
}

// ── Dispatch ────────────────────────────────────────────────────────────────

/// Which tool a call reaches.
#[derive(Debug, Clone, PartialEq, Eq)]
pub enum Dispatch {
    Read,
    ListFiles,
    Search,
    Edit,
    Write,
    /// Refused, with this outcome: the seat may not call it, or no such
    /// tool exists.
    Refused(ToolOutcome),
}

/// The tools, and the two ways a call is refused.
pub enum DispatchV {
    Read,
    ListFiles,
    Search,
    Edit,
    Write,
    Forbidden,
    Unknown,
}

/// Which tool a call by a seat with `access` reaches: the read tools need
/// read access, edit and write need write access; there is no delete, and
/// any other name is unknown.
pub open spec fn dispatch_kind(name: Seq<char>, access: ToolAccess) -> DispatchV {
    let readable = access == ToolAccess::ReadOnly || access == ToolAccess::ReadWrite;
    let writable = access == ToolAccess::ReadWrite;
    if name == "read"@ && readable {
        DispatchV::Read
    } else if name == "list_files"@ && readable {
        DispatchV::ListFiles
    } else if name == "search"@ && readable {
        DispatchV::Search
    } else if name == "edit"@ && writable {
        DispatchV::Edit
    } else if name == "write"@ && writable {
        DispatchV::Write
    } else if name == "read"@ || name == "list_files"@ || name == "search"@ || name == "edit"@
        || name == "write"@ {
        DispatchV::Forbidden
    } else {
        DispatchV::Unknown
    }
}

/// The write surface is capability-gated: only a read-write seat reaches
/// edit or write.
pub proof fn law_only_writers_write(name: Seq<char>, access: ToolAccess)
    requires
        access != ToolAccess::ReadWrite,
    ensures
        !(dispatch_kind(name, access) is Edit),
        !(dispatch_kind(name, access) is Write),
{
}

/// A toolless seat reaches no tool at all.
pub proof fn law_toolless_seats_reach_nothing(name: Seq<char>)
    ensures
        dispatch_kind(name, ToolAccess::Toolless) is Forbidden || dispatch_kind(name, ToolAccess::Toolless) is Unknown,
{
}

/// There are exactly five tools, and no delete among them: any other name
/// is unknown, whatever the seat.
pub proof fn law_five_tools_and_no_delete(name: Seq<char>, access: ToolAccess)
    requires
        name != "read"@,
        name != "list_files"@,
        name != "search"@,
        name != "edit"@,
        name != "write"@,
    ensures
        dispatch_kind(name, access) is Unknown,
{
}

/// Which tool a call by a seat with `access` reaches.
pub fn dispatch(name: &str, access: ToolAccess) -> (r: Dispatch)
    ensures
        dispatch_kind(name@, access) is Read ==> r == Dispatch::Read,
        dispatch_kind(name@, access) is ListFiles ==> r == Dispatch::ListFiles,
        dispatch_kind(name@, access) is Search ==> r == Dispatch::Search,
        dispatch_kind(name@, access) is Edit ==> r == Dispatch::Edit,
        dispatch_kind(name@, access) is Write ==> r == Dispatch::Write,
        dispatch_kind(name@, access) is Forbidden ==> (r matches Dispatch::Refused(o) && o.is_error
            && o.content@ == "forbidden: this seat may not call '"@ + name@ + "'"@),
        dispatch_kind(name@, access) is Unknown ==> (r matches Dispatch::Refused(o) && o.is_error
            && o.content@ == "unknown tool '"@ + name@ + "'"@),
{
    let readable = access == ToolAccess::ReadOnly || access == ToolAccess::ReadWrite;
    let writable = access == ToolAccess::ReadWrite;
    proof {
        reveal_strlit("read");
        reveal_strlit("list_files");
        reveal_strlit("search");
        reveal_strlit("edit");
        reveal_strlit("write");
    }
    let is_read = str_eq(name, "read");
    let is_list = str_eq(name, "list_files");
    let is_search = str_eq(name, "search");
    let is_edit = str_eq(name, "edit");
    let is_write = str_eq(name, "write");
    if is_read && readable {
        Dispatch::Read
    } else if is_list && readable {
        Dispatch::ListFiles
    } else if is_search && readable {
        Dispatch::Search
    } else if is_edit && writable {
        Dispatch::Edit
    } else if is_write && writable {
        Dispatch::Write
    } else if is_read || is_list || is_search || is_edit || is_write {
        let mut s = string_from("forbidden: this seat may not call '");
        push_str(&mut s, name);
        push_str(&mut s, "'");
        Dispatch::Refused(ToolOutcome::error(s))
    } else {
        let mut s = string_from("unknown tool '");
        push_str(&mut s, name);
        push_str(&mut s, "'");
        Dispatch::Refused(ToolOutcome::error(s))
    }
}

// ── The advertised surface ──────────────────────────────────────────────────

/// The advertised spec of `read`.
pub const READ_SPEC: &'static str = "{\"description\":\"Read a file's contents with line numbers. Paths are relative to the territory root.\",\"name\":\"read\",\"parameters\":{\"properties\":{\"limit\":{\"description\":\"Max lines to return (optional, capped).\",\"type\":\"integer\"},\"offset\":{\"description\":\"1-based start line (optional).\",\"type\":\"integer\"},\"path\":{\"description\":\"File path, relative to the territory root.\",\"type\":\"string\"}},\"required\":[\"path\"],\"type\":\"object\"},\"strict\":false,\"type\":\"function\"}";

/// The advertised spec of `list_files`.
pub const LIST_FILES_SPEC: &'static str = "{\"description\":\"List files and directories (gitignore-aware, hidden files skipped). Directories end with '/'.\",\"name\":\"list_files\",\"parameters\":{\"properties\":{\"path\":{\"description\":\"Directory to list (default: territory root).\",\"type\":\"string\"},\"recursive\":{\"description\":\"Recurse into subdirectories (default false).\",\"type\":\"boolean\"}},\"type\":\"object\"},\"strict\":false,\"type\":\"function\"}";

/// The advertised spec of `search`.
pub const SEARCH_SPEC: &'static str = "{\"description\":\"Search file contents for a substring (case-sensitive, gitignore-aware). Returns path:line: text matches.\",\"name\":\"search\",\"parameters\":{\"properties\":{\"path\":{\"description\":\"Directory to search under (default: territory root).\",\"type\":\"string\"},\"pattern\":{\"description\":\"Substring to find.\",\"type\":\"string\"}},\"required\":[\"pattern\"],\"type\":\"object\"},\"strict\":false,\"type\":\"function\"}";

/// The advertised spec of `edit`.
pub const EDIT_SPEC: &'static str = "{\"description\":\"Replace ONE exact occurrence of `old` with `new` in a file you have already read. Refused if the file was not read, changed since your last read, or `old` matches zero or multiple times.\",\"name\":\"edit\",\"parameters\":{\"properties\":{\"new\":{\"description\":\"Replacement text.\",\"type\":\"string\"},\"old\":{\"description\":\"Exact text to replace; must occur exactly once.\",\"type\":\"string\"},\"path\":{\"description\":\"File path, relative to the territory root.\",\"type\":\"string\"}},\"required\":[\"path\",\"old\",\"new\"],\"type\":\"object\"},\"strict\":false,\"type\":\"function\"}";

/// The advertised spec of `write`.
pub const WRITE_SPEC: &'static str = "{\"description\":\"Create a NEW file with the given content. Refused if the path already exists — mutation belongs to edit.\",\"name\":\"write\",\"parameters\":{\"properties\":{\"content\":{\"description\":\"Full file content.\",\"type\":\"string\"},\"path\":{\"description\":\"New file path, relative to the territory root.\",\"type\":\"string\"}},\"required\":[\"path\",\"content\"],\"type\":\"object\"},\"strict\":false,\"type\":\"function\"}";

/// The tools a seat with `access` is told of, in the order they are
/// advertised: the read tools always, edit and write only to a read-write
/// seat.
pub open spec fn advertised(access: ToolAccess) -> Seq<Seq<char>> {
    if access == ToolAccess::ReadWrite {
        seq!["read"@, "list_files"@, "search"@, "edit"@, "write"@]
    } else {
        seq!["read"@, "list_files"@, "search"@]
    }
}

/// The advertised spec of a tool, as compact JSON with its members in key
/// order: the function fields at top level.
pub open spec fn tool_spec_json(name: Seq<char>) -> Seq<char> {
    if name == "read"@ {
        READ_SPEC@
    } else if name == "list_files"@ {
        LIST_FILES_SPEC@
    } else if name == "search"@ {
        SEARCH_SPEC@
    } else if name == "edit"@ {
        EDIT_SPEC@
    } else {
        WRITE_SPEC@
    }
}

/// The specs advertised to a seat, as a JSON array in advertisement order.
pub open spec fn specs_json(access: ToolAccess) -> Seq<char> {
    "["@ + tool_spec_json("read"@) + ","@ + tool_spec_json("list_files"@) + ","@ + tool_spec_json(
        "search"@,
    ) + (if access == ToolAccess::ReadWrite {
        ","@ + tool_spec_json("edit"@) + ","@ + tool_spec_json("write"@)
    } else {
        Seq::<char>::empty()
    }) + "]"@
}

/// What a seat with tools is told of is exactly what it may call: a name
/// is advertised to it when, and only when, a call by that name reaches a
/// tool; anything else, delete among it, is refused.
pub proof fn law_advertised_is_callable(name: Seq<char>, access: ToolAccess)
    requires
        access != ToolAccess::Toolless,
    ensures
        advertised(access).contains(name) <==> !(dispatch_kind(name, access) is Forbidden
            || dispatch_kind(name, access) is Unknown),
{
    reveal_strlit("read");
    reveal_strlit("list_files");
    reveal_strlit("search");
    reveal_strlit("edit");
    reveal_strlit("write");
    let s = advertised(access);
    if name == "read"@ {
        assert(s[0] == name);
    } else if name == "list_files"@ {
        assert(s[1] == name);
    } else if name == "search"@ {
        assert(s[2] == name);
    } else if name == "edit"@ && access == ToolAccess::ReadWrite {
        assert(s[3] == name);
    } else if name == "write"@ && access == ToolAccess::ReadWrite {
        assert(s[4] == name);
    } else {
        assert forall|i: int| 0 <= i < s.len() implies s[i] != name by {
            if i == 3 {
                assert(s[i] == "edit"@);
            }
        }
    }
}

/// The specs advertised to a seat with `access`, as a JSON array: the read
/// tools, then edit and write for a read-write seat. Advertisement and
/// dispatch are both gated, so a call a lesser seat was not told of is
/// refused, not executed.
pub fn specs(access: ToolAccess) -> (r: String)
    ensures
        r@ == specs_json(access),
{
    proof {
        reveal_strlit("read");
        reveal_strlit("list_files");
        reveal_strlit("search");
        reveal_strlit("edit");
        reveal_strlit("write");
        assert("list_files"@[0] != "read"@[0]);
        assert("search"@[0] != "read"@[0]);
        assert("edit"@[0] != "read"@[0]);
        assert("edit"@.len() != "search"@.len());
    }
    let mut s = string_from("[");
    push_str(&mut s, READ_SPEC);
    push_str(&mut s, ",");
    push_str(&mut s, LIST_FILES_SPEC);
    push_str(&mut s, ",");
    push_str(&mut s, SEARCH_SPEC);
    if access == ToolAccess::ReadWrite {
        push_str(&mut s, ",");
        push_str(&mut s, EDIT_SPEC);
        push_str(&mut s, ",");
        push_str(&mut s, WRITE_SPEC);
    }
    push_str(&mut s, "]");
    s
}

// ── The read-hash record ────────────────────────────────────────────────────

/// Path to the content hash a guard expects there: the hash of the last
/// successful read, or a mutation's post-image.
#[derive(Debug, Clone)]
pub struct ReadRecord {
    entries: Vec<(String, String)>,
}

/// The mathematical form of a record: paths to hashes.
pub open spec fn record_map(entries: Seq<(String, String)>) -> Map<Seq<char>, Seq<char>>
    decreases entries.len(),
{
    if entries.len() == 0 {
        Map::empty()
    } else {
        record_map(entries.drop_last()).insert(entries.last().0@, entries.last().1@)
    }
}

impl View for ReadRecord {
    type V = Map<Seq<char>, Seq<char>>;

    closed spec fn view(&self) -> Map<Seq<char>, Seq<char>> {
        record_map(self.entries@)
    }
}

impl ReadRecord {
    /// An empty record.
    pub fn new() -> (r: ReadRecord)
        ensures
            r@ == Map::<Seq<char>, Seq<char>>::empty(),
    {
        ReadRecord { entries: Vec::new() }
    }

    /// The hash recorded for `path`.
    pub fn get(&self, path: &str) -> (r: Option<String>)
        ensures
            self@.contains_key(path@) ==> (r matches Some(h) && h@ == self@[path@]),
            !self@.contains_key(path@) ==> r is None,
    {
        let mut i: usize = self.entries.len();
        proof {
            assert(self.entries@.take(i as int) =~= self.entries@);
        }
        while i > 0
            invariant
                i <= self.entries@.len(),
                self@ == record_map(self.entries@),
                record_map(self.entries@.take(i as int)).contains_key(path@) == self@.contains_key(path@),
                self@.contains_key(path@) ==> record_map(self.entries@.take(i as int))[path@] == self@[path@],
            decreases i,
        {
            proof {
                assert(self.entries@.take(i as int).drop_last() =~= self.entries@.take(i - 1));
                assert(self.entries@.take(i as int).last() == self.entries@[i - 1]);
            }
            if str_eq(self.entries[i - 1].0.as_str(), path) {
                return Some(copy_string(&self.entries[i - 1].1));
            }
            i = i - 1;
        }
        proof {
            assert(self.entries@.take(0) =~= Seq::<(String, String)>::empty());
        }
        None
    }

    /// Record `hash` for `path`, replacing what was there.
    pub fn insert(&mut self, path: String, hash: String)
        ensures
            final(self)@ == old(self)@.insert(path@, hash@),
    {
        let ghost before = self.entries@;
        self.entries.push((path, hash));
        proof {
            assert(self.entries@.drop_last() =~= before);
        }
    }
}

// ── Reads ───────────────────────────────────────────────────────────────────

/// The first line a read shows: `offset`, at least 1; 1 when unset.
pub open spec fn read_offset(offset: Option<u64>) -> nat {
    match offset {
        Some(o) => if o >= 1 {
            o as nat
        } else {
            1
        },
        None => 1,
    }
}

/// How many lines a read shows: `limit` clamped to 1 through the cap; the
/// cap when unset.
pub open spec fn read_limit(limit: Option<u64>) -> nat {
    match limit {
        Some(l) => if l < 1 {
            1
        } else if l > READ_LINE_CAP {
            READ_LINE_CAP as nat
        } else {
            l as nat
        },
        None => READ_LINE_CAP as nat,
    }
}

/// A line number right-aligned in six columns.
pub open spec fn pad6(n: nat) -> Seq<char> {
    let d = dec(n);
    if d.len() >= 6 {
        d
    } else {
        Seq::new((6 - d.len()) as nat, |_i: int| ' ') + d
    }
}

/// A line as a read shows it: lines over the byte cap are cut at a
/// character boundary and marked.
pub open spec fn shown_line(line: Seq<char>) -> Seq<char> {
    if utf8_len(line) > READ_LINE_BYTES {
        fit(line, READ_LINE_BYTES as nat) + " …(line truncated)"@
    } else {
        line
    }
}

/// The body of a read from line `idx` (0-based) on, `shown` lines shown so
/// far: lines before the offset are skipped; once `limit` lines are shown, a
/// further line in range ends the read with a truncation mark.
pub open spec fn read_body(lines: Seq<Seq<char>>, idx: int, offset: nat, limit: nat, shown: nat) -> (Seq<char>, nat)
    decreases lines.len() - idx,
{
    if idx < 0 || idx >= lines.len() {
        (Seq::empty(), shown)
    } else if idx + 1 < offset {
        read_body(lines, idx + 1, offset, limit, shown)
    } else if shown >= limit {
        ("... (truncated at "@ + dec(limit) + " lines)\n"@, shown)
    } else {
        let (rest, n) = read_body(lines, idx + 1, offset, limit, shown + 1);
        (pad6((idx + 1) as nat) + "\t"@ + shown_line(lines[idx]) + "\n"@ + rest, n)
    }
}

/// What a read of `text` shows.
pub open spec fn read_view(text: Seq<char>, offset: Option<u64>, limit: Option<u64>) -> Seq<char> {
    let (body, shown) = read_body(lines_of(text), 0, read_offset(offset), read_limit(limit), 0);
    if shown == 0 {
        body + "(no lines in range; file may be empty)\n"@
    } else {
        body
    }
}

/// Reading from an index before the offset skips straight to the offset.
proof fn lemma_read_skips_to_offset(lines: Seq<Seq<char>>, idx: int, offset: nat, limit: nat, shown: nat)
    requires
        0 <= idx,
        idx + 1 <= offset,
    ensures
        offset <= lines.len() ==> read_body(lines, idx, offset, limit, shown) == read_body(
            lines,
            offset - 1,
            offset,
            limit,
            shown,
        ),
        offset > lines.len() ==> read_body(lines, idx, offset, limit, shown) == (Seq::<char>::empty(), shown),
    decreases offset - idx,
{
    if idx < lines.len() && idx + 1 < offset {
        lemma_read_skips_to_offset(lines, idx + 1, offset, limit, shown);
    }
}

/// A read never reports fewer lines shown than it started with.
proof fn lemma_read_shown_grows(lines: Seq<Seq<char>>, idx: int, offset: nat, limit: nat, shown: nat)
    ensures
        read_body(lines, idx, offset, limit, shown).1 >= shown,
    decreases lines.len() - idx,
{
    if 0 <= idx < lines.len() {
        lemma_read_shown_grows(lines, idx + 1, offset, limit, shown);
        lemma_read_shown_grows(lines, idx + 1, offset, limit, shown + 1);
    }
}

/// A read starts at its 1-based offset: asked to start at line `o` of a
/// text with at least `o` lines, it shows line `o` first, numbered `o`;
/// asked to start past the last line, it shows no line at all.
pub proof fn law_a_read_starts_at_its_offset(text: Seq<char>, o: u64, limit: Option<u64>)
    requires
        o >= 1,
    ensures
        o <= lines_of(text).len() ==> ({
            let first = pad6(o as nat) + "\t"@ + shown_line(lines_of(text)[o - 1]) + "\n"@;
            &&& read_view(text, Some(o), limit).len() >= first.len()
            &&& read_view(text, Some(o), limit).subrange(0, first.len() as int) == first
        }),
        o > lines_of(text).len() ==> read_view(text, Some(o), limit) == "(no lines in range; file may be empty)\n"@,
{
    let lines = lines_of(text);
    let off = read_offset(Some(o));
    let lim = read_limit(limit);
    assert(off == o);
    assert(lim >= 1);
    lemma_read_skips_to_offset(lines, 0, off, lim, 0);
    if o <= lines.len() {
        let i = o - 1;
        let (rest, n) = read_body(lines, i + 1, off, lim, 1);
        lemma_read_shown_grows(lines, i + 1, off, lim, 1);
        let first = pad6(o as nat) + "\t"@ + shown_line(lines[i]) + "\n"@;
        assert(read_body(lines, i, off, lim, 0) == (first + rest, n));
        assert((first + rest).subrange(0, first.len() as int) =~= first);
    } else {
        assert(Seq::<char>::empty() + "(no lines in range; file may be empty)\n"@ =~= "(no lines in range; file may be empty)\n"@);
    }
}

/// A line number right-aligned in six columns.
#[verifier::spinoff_prover]
#[verifier::rlimit(40)]
fn push_pad6(out: &mut Vec<char>, n: u64)
    ensures
        final(out)@ == old(out)@ + pad6(n as nat),
{
    let mut d: Vec<char> = Vec::new();
    crate::text::push_dec(&mut d, n);
    proof {
        assert(d@ =~= dec(n as nat));
    }
    let ghost start = out@;
    if d.len() < 6 {
        let pad = 6 - d.len();
        let mut k: usize = 0;
        while k < pad
            invariant
                k <= pad,
                out@ == start + Seq::new(k as nat, |_i: int| ' '),
            decreases pad - k,
        {
            out.push(' ');
            proof {
                assert(Seq::new((k + 1) as nat, |_i: int| ' ') =~= Seq::new(k as nat, |_i: int| ' ').push(' '));
            }
            k = k + 1;
        }
    }
    let ghost mid = out@;
    let mut j: usize = 0;
    while j < d.len()
        invariant
            j <= d@.len(),
            out@ == mid + d@.take(j as int),
        decreases d@.len() - j,
    {
        proof {
            assert(d@.take(j + 1) =~= d@.take(j as int).push(d@[j as int]));
        }
        out.push(d[j]);
        j = j + 1;
    }
    proof {
        assert(d@.take(d@.len() as int) =~= d@);
    }
}

/// Appends a string slice's characters to a character vector.
fn extend_str(out: &mut Vec<char>, s: &str)
    ensures
        final(out)@ == old(out)@ + s@,
{
    let v = chars_of(s);
    let ghost start = out@;
    let mut j: usize = 0;
    while j < v.len()
        invariant
            j <= v@.len(),
            out@ == start + v@.take(j as int),
        decreases v@.len() - j,
    {
        proof {
            assert(v@.take(j + 1) =~= v@.take(j as int).push(v@[j as int]));
        }
        out.push(v[j]);
        j = j + 1;
    }
    proof {
        assert(v@.take(v@.len() as int) =~= v@);
    }
}

/// What a read of the lines shows.
#[verifier::rlimit(40)]
fn render_lines(lines: &Vec<Vec<char>>, offset: u64, limit: u64) -> (r: (Vec<char>, u64))
    requires
        offset >= 1,
        limit >= 1,
    ensures
        (r.0@, r.1 as nat) == read_body(lines@.map_values(|l: Vec<char>| l@), 0, offset as nat, limit as nat, 0),
{
    let ghost lv = lines@.map_values(|l: Vec<char>| l@);
    let mut out: Vec<char> = Vec::new();
    let mut shown: u64 = 0;
    let mut idx: usize = 0;
    while idx < lines.len()
        invariant
            idx <= lines@.len(),
            offset >= 1,
            lv == lines@.map_values(|l: Vec<char>| l@),
            shown <= idx,
            read_body(lv, 0, offset as nat, limit as nat, 0) == ({
                let (rest, n) = read_body(lv, idx as int, offset as nat, limit as nat, shown as nat);
                (out@ + rest, n)
            }),
        decreases lines@.len() - idx,
    {
        if ((idx + 1) as u64) < offset {
            idx = idx + 1;
        } else if shown >= limit {
            let ghost before = out@;
            extend_str(&mut out, "... (truncated at ");
            crate::text::push_dec(&mut out, limit);
            extend_str(&mut out, " lines)\n");
            proof {
                assert(out@ =~= before + ("... (truncated at "@ + dec(limit as nat) + " lines)\n"@));
                assert(read_body(lv, lines@.len() as int, offset as nat, limit as nat, shown as nat).0 =~= Seq::<char>::empty());
            }
            return (out, shown);
        } else {
            let ghost before = out@;
            push_pad6(&mut out, (idx + 1) as u64);
            out.push('\t');
            let mut line = String::new();
            push_chars(&mut line, &lines[idx]);
            proof {
                assert(lv[idx as int] == lines@[idx as int]@);
            }
            let over = byte_len(line.as_str()) > READ_LINE_BYTES;
            proof {
                if !over {
                    assert(utf8_len(line@) <= READ_LINE_BYTES);
                }
            }
            if over {
                truncate_at_boundary(&mut line, READ_LINE_BYTES);
                push_str(&mut line, " …(line truncated)");
            }
            let lc = chars_of(line.as_str());
            let ghost mid = out@;
            let mut j: usize = 0;
            while j < lc.len()
                invariant
                    j <= lc@.len(),
                    out@ == mid + lc@.take(j as int),
                decreases lc@.len() - j,
            {
                proof {
                    assert(lc@.take(j + 1) =~= lc@.take(j as int).push(lc@[j as int]));
                }
                out.push(lc[j]);
                j = j + 1;
            }
            out.push('\n');
            proof {
                assert(lc@.take(lc@.len() as int) =~= lc@);
                assert(lc@ == shown_line(lv[idx as int]));
                reveal_strlit("\t");
                reveal_strlit("\n");
                assert(out@ =~= before + (pad6((idx + 1) as nat) + "\t"@ + shown_line(lv[idx as int]) + "\n"@));
            }
            shown = shown + 1;
            idx = idx + 1;
        }
    }
    (out, shown)
}

/// What a read shows of a file's bytes: the text decoded with invalid
/// sequences replaced, each line numbered, within the offset and limit.
/// A file holding a NUL byte is binary and refused. The outcome carries
/// the content hash of the bytes.
pub fn render_read(path: &str, bytes: &Vec<u8>, offset: Option<u64>, limit: Option<u64>) -> (r: ToolOutcome)
    ensures
        bytes@.contains(0u8) ==> r.is_error && r.content@ == "read: '"@ + path@ + "' appears to be binary"@,
        !bytes@.contains(0u8) ==> !r.is_error && r.content@ == read_view(utf8_lossy(bytes@), offset, limit)
            && r.hash@ == content_hash_of(bytes@) && r.before_hash is None,
{
    let mut k: usize = 0;
    while k < bytes.len()
        invariant
            k <= bytes@.len(),
            forall|j: int| 0 <= j < k ==> bytes@[j] != 0u8,
        decreases bytes@.len() - k,
    {
        if bytes[k] == 0 {
            proof {
                assert(bytes@[k as int] == 0u8);
            }
            let mut s = string_from("read: '");
            push_str(&mut s, path);
            push_str(&mut s, "' appears to be binary");
            return ToolOutcome::error(s);
        }
        k = k + 1;
    }
    let hash = content_hash(bytes);
    let text = decode(bytes);
    let chars = chars_of(text.as_str());
    let lines = lines_of_chars(&chars);
    let off: u64 = match offset {
        Some(o) => if o >= 1 { o } else { 1 },
        None => 1,
    };
    let lim: u64 = match limit {
        Some(l) => if l < 1 { 1 } else if l > READ_LINE_CAP { READ_LINE_CAP } else { l },
        None => READ_LINE_CAP,
    };
    let (body, shown) = render_lines(&lines, off, lim);
    let mut content = String::new();
    push_chars(&mut content, &body);
    if shown == 0 {
        push_str(&mut content, "(no lines in range; file may be empty)\n");
    }
    ToolOutcome { content, is_error: false, hash, before_hash: None }
}

/// Decodes bytes as UTF-8, replacing invalid sequences.
fn decode(b: &Vec<u8>) -> (r: String)
    ensures
        r@ == utf8_lossy(b@),
{
    crate::sandbox::runner::decode_bytes(b)
}

// ── UTF-8 encoding ──────────────────────────────────────────────────────────

/// The UTF-8 encoding of one character.
pub open spec fn char_bytes(c: char) -> Seq<u8> {
    let cp = c as u32 as int;
    if cp < 0x80 {
        seq![cp as u8]
    } else if cp < 0x800 {
        seq![(0xC0 + cp / 64) as u8, (0x80 + cp % 64) as u8]
    } else if cp < 0x10000 {
        seq![(0xE0 + cp / 4096) as u8, (0x80 + (cp / 64) % 64) as u8, (0x80 + cp % 64) as u8]
    } else {
        seq![
            (0xF0 + cp / 262144) as u8,
            (0x80 + (cp / 4096) % 64) as u8,
            (0x80 + (cp / 64) % 64) as u8,
            (0x80 + cp % 64) as u8,
        ]
    }
}

/// The UTF-8 encoding of a text (`str::as_bytes`).
pub open spec fn utf8_bytes(s: Seq<char>) -> Seq<u8>
    decreases s.len(),
{
    if s.len() == 0 {
        Seq::empty()
    } else {
        utf8_bytes(s.drop_last()) + char_bytes(s.last())
    }
}

/// Appends one character's UTF-8 encoding.
fn push_char_bytes(out: &mut Vec<u8>, c: char)
    ensures
        final(out)@ == old(out)@ + char_bytes(c),
{
    let cp = c as u32;
    if cp < 0x80 {
        out.push(cp as u8);
    } else if cp < 0x800 {
        out.push((0xC0 + cp / 64) as u8);
        out.push((0x80 + cp % 64) as u8);
    } else if cp < 0x10000 {
        out.push((0xE0 + cp / 4096) as u8);
        out.push((0x80 + (cp / 64) % 64) as u8);
        out.push((0x80 + cp % 64) as u8);
    } else {
        proof {
            assert(cp <= 0x10FFFF);
        }
        out.push((0xF0 + cp / 262144) as u8);
        out.push((0x80 + (cp / 4096) % 64) as u8);
        out.push((0x80 + (cp / 64) % 64) as u8);
        out.push((0x80 + cp % 64) as u8);
    }
}

/// The UTF-8 encoding of a text.
pub fn encode_utf8(s: &str) -> (r: Vec<u8>)
    ensures
        r@ == utf8_bytes(s@),
{
    let v = chars_of(s);
    let mut out: Vec<u8> = Vec::new();
    let mut i: usize = 0;
    while i < v.len()
        invariant
            i <= v@.len(),
            out@ == utf8_bytes(v@.take(i as int)),
        decreases v@.len() - i,
    {
        proof {
            assert(v@.take(i + 1).drop_last() =~= v@.take(i as int));
            assert(v@.take(i + 1).last() == v@[i as int]);
        }
        push_char_bytes(&mut out, v[i]);
        i = i + 1;
    }
    proof {
        assert(v@.take(v@.len() as int) =~= v@);
    }
    out
}

// ── Edits and writes ────────────────────────────────────────────────────────

/// The first position where `p` occurs in `s`.
pub open spec fn first_occurrence(s: Seq<char>, p: Seq<char>) -> Option<int> {
    if exists|i: int| occurs_at(s, p, i) {
        Some(choose|i: int| occurs_at(s, p, i) && forall|k: int| 0 <= k < i ==> !occurs_at(s, p, k))
    } else {
        None
    }
}

/// How many non-overlapping occurrences of a non-empty `p` a left-to-right
/// search finds in `s` (`str::matches(..).count()`).
pub open spec fn occurrences(s: Seq<char>, p: Seq<char>) -> nat
    decreases s.len(),
{
    if p.len() == 0 {
        0
    } else {
        match first_occurrence(s, p) {
            None => 0,
            Some(i) => if 0 <= i && i + p.len() <= s.len() {
                1 + occurrences(s.skip(i + p.len()), p)
            } else {
                0
            },
        }
    }
}

proof fn lemma_first_occurrence(s: Seq<char>, p: Seq<char>, at: int)
    requires
        occurs_at(s, p, at),
        forall|k: int| 0 <= k < at ==> !occurs_at(s, p, k),
    ensures
        first_occurrence(s, p) == Some(at),
{
    let i = choose|i: int| occurs_at(s, p, i) && forall|k: int| 0 <= k < i ==> !occurs_at(s, p, k);
    assert(occurs_at(s, p, i) && forall|k: int| 0 <= k < i ==> !occurs_at(s, p, k));
    if i < at {
        assert(!occurs_at(s, p, i));
    }
    if at < i {
        assert(!occurs_at(s, p, at));
    }
}

/// Counts the non-overlapping occurrences of a non-empty `p` in `s`.
fn count_occurrences(s: &Vec<char>, p: &Vec<char>) -> (r: usize)
    requires
        p@.len() > 0,
    ensures
        r == occurrences(s@, p@),
{
    let mut rest = s.clone();
    let mut n: usize = 0;
    let slen = s.len();
    proof {
        assert(rest@ == s@);
    }
    loop
        invariant
            p@.len() > 0,
            slen == s@.len(),
            n <= s@.len() - rest@.len(),
            rest@.len() <= s@.len(),
            n + occurrences(rest@, p@) == occurrences(s@, p@),
        decreases rest@.len(),
    {
        match find_seq(&rest, p) {
            None => {
                proof {
                    assert(!(exists|i: int| occurs_at(rest@, p@, i)));
                }
                return n;
            },
            Some(at) => {
                proof {
                    lemma_first_occurrence(rest@, p@, at as int);
                    assert(occurs_at(rest@, p@, at as int));
                    assert(at + p@.len() <= rest@.len());
                }
                let plen = p.len();
                let rlen = rest.len();
                assert(at + plen <= rlen);
                let end = at + plen;
                let next = crate::text::slice_chars(&rest, end, rlen);
                proof {
                    assert(next@ =~= rest@.skip(at + p@.len()));
                }
                assert(n < s@.len());
                rest = next;
                n = n + 1;
            },
        }
    }
}

/// `s` with the first occurrence of `p` replaced by `q`
/// (`str::replacen(p, q, 1)`).
pub open spec fn replace_first(s: Seq<char>, p: Seq<char>, q: Seq<char>) -> Seq<char> {
    match first_occurrence(s, p) {
        Some(i) => s.take(i) + q + s.skip(i + p.len()),
        None => s,
    }
}

/// The refusal of an edit whose `old` is empty.
pub const EMPTY_OLD: &'static str = "edit: 'old' must not be empty";

/// The refusal of an edit missing one of its arguments.
pub const EDIT_ARGS_MISSING: &'static str = "edit: 'path', 'old', and 'new' are all required";

/// What an edit call's arguments allow before any file is touched: all
/// three are required, and `old` must not be empty.
pub fn edit_args_refusal(path: Option<&str>, old: Option<&str>, new: Option<&str>) -> (r: Option<ToolOutcome>)
    ensures
        (path is None || old is None || new is None) ==> (r matches Some(o) && o.is_error && o.content@ == EDIT_ARGS_MISSING@),
        (path is Some && old is Some && new is Some) ==> ((r is Some <==> old->0@.len() == 0)
            && (r matches Some(o) ==> o.is_error && o.content@ == EMPTY_OLD@)),
{
    match (path, old, new) {
        (Some(_), Some(o), Some(_)) => if chars_of(o).len() == 0 {
            Some(ToolOutcome::error(string_from(EMPTY_OLD)))
        } else {
            None
        },
        _ => Some(ToolOutcome::error(string_from(EDIT_ARGS_MISSING))),
    }
}

/// What an edit refuses in its target: a directory, then bytes that hold a
/// NUL, which are taken as binary.
pub fn edit_target_refusal(path: &str, is_dir: bool, bytes: Option<&Vec<u8>>) -> (r: Option<ToolOutcome>)
    ensures
        is_dir ==> (r matches Some(o) && o.is_error && o.content@ == "edit: '"@ + path@ + "' is a directory"@),
        !is_dir ==> match bytes {
            Some(b) => (r is Some <==> b@.contains(0u8)) && (r matches Some(o) ==> o.is_error
                && o.content@ == "edit: '"@ + path@ + "' appears to be binary"@),
            None => r is None,
        },
{
    if is_dir {
        let mut s = string_from("edit: '");
        push_str(&mut s, path);
        push_str(&mut s, "' is a directory");
        return Some(ToolOutcome::error(s));
    }
    match bytes {
        Some(b) => {
            let mut i: usize = 0;
            while i < b.len()
                invariant
                    i <= b@.len(),
                    !is_dir,
                    bytes == Some(b),
                    forall|j: int| 0 <= j < i ==> b@[j] != 0u8,
                decreases b@.len() - i,
            {
                if b[i] == 0u8 {
                    proof {
                        assert(b@[i as int] == 0u8);
                        assert(b@.contains(0u8));
                    }
                    let mut s = string_from("edit: '");
                    push_str(&mut s, path);
                    push_str(&mut s, "' appears to be binary");
                    return Some(ToolOutcome::error(s));
                }
                i = i + 1;
            }
            proof {
                assert(!b@.contains(0u8));
            }
            None
        },
        None => None,
    }
}

/// What an edit of `text` at `path` does: `old` must occur exactly once;
/// the result is the text with that occurrence replaced by `new`.
pub fn edit_text(path: &str, text: &str, old: &str, new: &str) -> (r: Result<String, ToolOutcome>)
    ensures
        old@.len() == 0 ==> (r matches Err(o) && o.is_error && o.content@ == EMPTY_OLD@),
        old@.len() > 0 && occurrences(text@, old@) == 1 ==> (r matches Ok(u) && u@ == replace_first(text@, old@, new@)),
        old@.len() > 0 && occurrences(text@, old@) == 0 ==> (r matches Err(o) && o.is_error && o.content@ == "edit: 'old' does not occur in '"@ + path@ + "'"@),
        old@.len() > 0 && occurrences(text@, old@) > 1 ==> (r matches Err(o) && o.is_error && o.content@ == "edit: 'old' occurs "@ + dec(occurrences(text@, old@)) + " times in '"@ + path@ + "' — make it unique"@),
{
    if chars_of(old).len() == 0 {
        return Err(ToolOutcome::error(string_from(EMPTY_OLD)));
    }
    let tv = chars_of(text);
    let ov = chars_of(old);
    let n = count_occurrences(&tv, &ov);
    if n == 0 {
        let mut s = string_from("edit: 'old' does not occur in '");
        push_str(&mut s, path);
        push_str(&mut s, "'");
        return Err(ToolOutcome::error(s));
    }
    if n > 1 {
        let mut s = string_from("edit: 'old' occurs ");
        push_u64(&mut s, n as u64);
        push_str(&mut s, " times in '");
        push_str(&mut s, path);
        push_str(&mut s, "' — make it unique");
        return Err(ToolOutcome::error(s));
    }
    let at = match find_seq(&tv, &ov) {
        Some(at) => at,
        None => {
            proof {
                assert(occurrences(tv@, ov@) == 0);
            }
            return Err(ToolOutcome::error(string_from("edit: 'old' does not occur")));
        },
    };
    proof {
        lemma_first_occurrence(tv@, ov@, at as int);
        assert(occurs_at(tv@, ov@, at as int));
    }
    let mut out = crate::text::slice_chars(&tv, 0, at);
    let nv = chars_of(new);
    let mut k: usize = 0;
    let ghost head = out@;
    while k < nv.len()
        invariant
            k <= nv@.len(),
            out@ == head + nv@.take(k as int),
        decreases nv@.len() - k,
    {
        proof {
            assert(nv@.take(k + 1) =~= nv@.take(k as int).push(nv@[k as int]));
        }
        out.push(nv[k]);
        k = k + 1;
    }
    let olen = ov.len();
    let tlen = tv.len();
    assert(at + olen <= tlen);
    let tail = crate::text::slice_chars(&tv, at + olen, tlen);
    let mut j: usize = 0;
    let ghost mid = out@;
    while j < tail.len()
        invariant
            j <= tail@.len(),
            out@ == mid + tail@.take(j as int),
        decreases tail@.len() - j,
    {
        proof {
            assert(tail@.take(j + 1) =~= tail@.take(j as int).push(tail@[j as int]));
        }
        out.push(tail[j]);
        j = j + 1;
    }
    proof {
        assert(nv@.take(nv@.len() as int) =~= nv@);
        assert(tail@.take(tail@.len() as int) =~= tail@);
        assert(out@ =~= tv@.take(at as int) + nv@ + tv@.skip(at + ov@.len()));
    }
    Ok(string_from_chars(&out))
}

/// The guard before an edit: the file must have been read, and must still
/// hold what was read.
pub fn edit_guard(path: &str, recorded: Option<String>, current: &str) -> (r: Result<(), ToolOutcome>)
    ensures
        recorded is None ==> (r matches Err(o) && o.is_error && o.content@ == "edit: '"@ + path@ + "' has not been read — read it first"@),
        recorded matches Some(h) ==> (if h@ == current@ {
            r is Ok
        } else {
            r matches Err(o) && o.is_error && o.content@ == "edit: '"@ + path@ + "' changed since it was read — read it again"@
        }),
{
    match recorded {
        None => {
            let mut s = string_from("edit: '");
            push_str(&mut s, path);
            push_str(&mut s, "' has not been read — read it first");
            Err(ToolOutcome::error(s))
        },
        Some(h) => {
            if str_eq(h.as_str(), current) {
                Ok(())
            } else {
                let mut s = string_from("edit: '");
                push_str(&mut s, path);
                push_str(&mut s, "' changed since it was read — read it again");
                Err(ToolOutcome::error(s))
            }
        },
    }
}

/// The outcome of a successful edit: the replacement reported, the
/// post-image hashed, the pre-image's hash kept.
pub fn edited(path: &str, updated: &str, before: String) -> (r: ToolOutcome)
    ensures
        !r.is_error,
        r.content@ == "edited '"@ + path@ + "': replaced 1 occurrence"@,
        r.hash@ == content_hash_of(utf8_bytes(updated@)),
        r.before_hash == Some(before),
{
    let mut s = string_from("edited '");
    push_str(&mut s, path);
    push_str(&mut s, "': replaced 1 occurrence");
    let bytes = encode_utf8(updated);
    ToolOutcome { content: s, is_error: false, hash: content_hash(&bytes), before_hash: Some(before) }
}

/// The outcome of a successful write of a new file: its size in bytes
/// reported, its content hashed.
pub fn written(path: &str, content: &str) -> (r: ToolOutcome)
    ensures
        !r.is_error,
        r.content@ == "wrote '"@ + path@ + "' ("@ + dec(utf8_bytes(content@).len()) + " bytes)"@,
        r.hash@ == content_hash_of(utf8_bytes(content@)),
        r.before_hash is None,
{
    let bytes = encode_utf8(content);
    let mut s = string_from("wrote '");
    push_str(&mut s, path);
    push_str(&mut s, "' (");
    push_u64(&mut s, bytes.len() as u64);
    push_str(&mut s, " bytes)");
    ToolOutcome { content: s, is_error: false, hash: content_hash(&bytes), before_hash: None }
}

// ── Confinement ─────────────────────────────────────────────────────────────

/// Whether the components of `root` begin those of `p` (`Path::starts_with`).
pub open spec fn path_starts_with(p: Seq<char>, root: Seq<char>) -> bool {
    let pc = path_components(p);
    let rc = path_components(root);
    rc.len() <= pc.len() && pc.take(rc.len() as int) == rc
}

/// Whether two components are equal.
fn comp_eq(a: &PathComponent, b: &PathComponent) -> (r: bool)
    ensures
        r == (a@ == b@),
{
    match (a, b) {
        (PathComponent::RootDir, PathComponent::RootDir) => true,
        (PathComponent::CurDir, PathComponent::CurDir) => true,
        (PathComponent::ParentDir, PathComponent::ParentDir) => true,
        (PathComponent::Normal(x), PathComponent::Normal(y)) => crate::text::chars_eq(x, y),
        _ => false,
    }
}

/// Whether `p` lies under `root`, component by component.
pub fn starts_with(p: &str, root: &str) -> (r: bool)
    ensures
        r == path_starts_with(p@, root@),
{
    let pc = components_of(p);
    let rc = components_of(root);
    if rc.len() > pc.len() {
        return false;
    }
    let mut i: usize = 0;
    while i < rc.len()
        invariant
            i <= rc@.len(),
            rc@.len() <= pc@.len(),
            comps_view(pc@) == path_components(p@),
            comps_view(rc@) == path_components(root@),
            forall|j: int| 0 <= j < i ==> pc@[j]@ == rc@[j]@,
        decreases rc@.len() - i,
    {
        if !comp_eq(&pc[i], &rc[i]) {
            proof {
                assert(comps_view(pc@).take(rc@.len() as int)[i as int] == pc@[i as int]@);
                assert(comps_view(rc@)[i as int] == rc@[i as int]@);
            }
            return false;
        }
        i = i + 1;
    }
    proof {
        assert(comps_view(pc@).take(rc@.len() as int) =~= comps_view(rc@));
    }
    true
}

/// Per-flight tool state: the territory's canonical root and the
/// read-hash record.
#[derive(Debug, Clone)]
pub struct ToolContext {
    root: String,
    read_hashes: ReadRecord,
}

impl ToolContext {
    /// The context of a territory, given what resolving its root to a
    /// canonical path gave; a root that cannot be resolved is refused.
    pub fn new(root: &str, canonical: Result<String, String>) -> (r: Result<ToolContext, String>)
        ensures
            canonical matches Ok(c) ==> (r matches Ok(ctx) && ctx.root_path() == c@ && ctx.hashes() == Map::<Seq<char>, Seq<char>>::empty()),
            canonical matches Err(e) ==> (r matches Err(m) && m@ == "territory "@ + root@ + " cannot be resolved: "@ + e@),
    {
        match canonical {
            Ok(c) => Ok(ToolContext { root: c, read_hashes: ReadRecord::new() }),
            Err(e) => {
                let mut m = string_from("territory ");
                push_str(&mut m, root);
                push_str(&mut m, " cannot be resolved: ");
                push_str(&mut m, e.as_str());
                Err(m)
            },
        }
    }

    /// The canonical territory root.
    pub closed spec fn root_path(&self) -> Seq<char> {
        self.root@
    }

    /// Path to content hash at last successful read.
    pub closed spec fn hashes(&self) -> Map<Seq<char>, Seq<char>> {
        self.read_hashes@
    }

    /// The read-hash record.
    pub fn read_hashes(&self) -> (r: &ReadRecord)
        ensures
            r@ == self.hashes(),
    {
        &self.read_hashes
    }

    /// The canonical territory root.
    pub fn root(&self) -> (r: &String)
        ensures
            r@ == self.root_path(),
    {
        &self.root
    }

    /// The path to resolve for a requested path: relative paths are taken
    /// under the root, absolute ones as they are.
    pub fn joined(&self, path: &str) -> (r: String)
        ensures
            r@ == crate::path::push_path(self.root_path(), path@),
    {
        let mut p = chars_of(self.root.as_str());
        crate::path::push_segment(&mut p, &chars_of(path));
        string_from_chars(&p)
    }

    /// Confinement, given what resolving the joined path to a canonical
    /// path gave: it must lie inside the territory.
    pub fn confine(&self, path: &str, canonical: Result<String, String>) -> (r: Result<String, String>)
        ensures
            canonical matches Err(e) ==> (r matches Err(m) && m@ == "cannot resolve '"@ + path@ + "': "@ + e@),
            canonical matches Ok(c) ==> (if path_starts_with(c@, self.root_path()) {
                r == Ok::<String, String>(c)
            } else {
                r matches Err(m) && m@ == "'"@ + path@ + "' is outside the territory"@
            }),
    {
        match canonical {
            Err(e) => {
                let mut m = string_from("cannot resolve '");
                push_str(&mut m, path);
                push_str(&mut m, "': ");
                push_str(&mut m, e.as_str());
                Err(m)
            },
            Ok(c) => {
                if starts_with(c.as_str(), self.root.as_str()) {
                    Ok(c)
                } else {
                    let mut m = string_from("'");
                    push_str(&mut m, path);
                    push_str(&mut m, "' is outside the territory");
                    Err(m)
                }
            },
        }
    }

    /// How a path reads in tool output: relative to the territory root
    /// when it lies under it, else as it is.
    pub fn relative(&self, path: &str) -> (r: String)
        ensures
            path_starts_with(path@, self.root_path()) ==> r@ == render(
                path_components(path@).skip(path_components(self.root_path()).len() as int),
            ),
            !path_starts_with(path@, self.root_path()) ==> r@ == path@,
    {
        if !starts_with(path, self.root.as_str()) {
            return string_from(path);
        }
        let pc = components_of(path);
        let n = components_of(self.root.as_str()).len();
        let mut rest: Vec<PathComponent> = Vec::new();
        let mut i: usize = n;
        while i < pc.len()
            invariant
                n <= i <= pc@.len(),
                comps_view(rest@) == comps_view(pc@).subrange(n as int, i as int),
            decreases pc@.len() - i,
        {
            let c = copy_component(&pc[i]);
            let ghost before = rest@;
            rest.push(c);
            proof {
                assert(comps_view(rest@) =~= comps_view(before).push(c@));
                assert(comps_view(pc@).subrange(n as int, i + 1) =~= comps_view(pc@).subrange(
                    n as int,
                    i as int,
                ).push(pc@[i as int]@));
            }
            i = i + 1;
        }
        proof {
            assert(comps_view(pc@).subrange(n as int, pc@.len() as int) =~= comps_view(pc@).skip(
                n as int,
            ));
        }
        string_from_chars(&render_components(&rest))
    }

    /// Where a new file at `path` would go: the directory to resolve (the
    /// joined path without its final component) and the file's name. A
    /// new file's path must be relative and end in a plain name.
    pub fn new_file_parts(&self, path: &str) -> (r: Result<(String, String), String>)
        ensures
            crate::path::is_absolute(path@) ==> (r matches Err(m) && m@ == "'"@ + path@ + "' must be relative"@),
            !crate::path::is_absolute(path@) ==> {
                let cs = path_components(crate::path::push_path(self.root_path(), path@));
                if cs.len() > 0 && cs.last() is Normal {
                    r matches Ok((parent, name)) && parent@ == render(cs.drop_last()) && name@ == cs.last()->Normal_0
                } else {
                    r matches Err(m) && m@ == "'"@ + path@ + "' has no file name"@
                }
            },
    {
        let pv = chars_of(path);
        if pv.len() > 0 && pv[0] == '/' {
            let mut m = string_from("'");
            push_str(&mut m, path);
            push_str(&mut m, "' must be relative");
            return Err(m);
        }
        let joined = self.joined(path);
        let cs = components_of(joined.as_str());
        let n = cs.len();
        let name = if n > 0 {
            match &cs[n - 1] {
                PathComponent::Normal(seg) => Some(seg.clone()),
                _ => None,
            }
        } else {
            None
        };
        match name {
            None => {
                let mut m = string_from("'");
                push_str(&mut m, path);
                push_str(&mut m, "' has no file name");
                Err(m)
            },
            Some(seg) => {
                let mut head: Vec<PathComponent> = Vec::new();
                let mut i: usize = 0;
                while i + 1 < n
                    invariant
                        n == cs@.len(),
                        n > 0,
                        i < n,
                        comps_view(head@) == comps_view(cs@).subrange(0, i as int),
                    decreases n - i,
                {
                    let c = copy_component(&cs[i]);
                    let ghost before = head@;
                    head.push(c);
                    proof {
                        assert(comps_view(head@) =~= comps_view(before).push(c@));
                        assert(comps_view(cs@).subrange(0, i + 1) =~= comps_view(cs@).subrange(0, i as int).push(cs@[i as int]@));
                    }
                    i = i + 1;
                }
                proof {
                    assert(comps_view(cs@).subrange(0, n - 1) =~= comps_view(cs@).drop_last());
                }
                Ok((string_from_chars(&render_components(&head)), string_from_chars(&seg)))
            },
        }
    }

    /// Confinement of a new file, given what resolving its parent to a
    /// canonical path gave: the parent must lie inside the territory; the
    /// file is the parent joined with `name`.
    pub fn confine_new(&self, path: &str, name: &str, canonical_parent: Result<String, String>) -> (r: Result<String, String>)
        ensures
            canonical_parent matches Err(e) ==> (r matches Err(m) && m@ == "cannot resolve parent of '"@ + path@ + "': "@ + e@),
            canonical_parent matches Ok(c) ==> (if path_starts_with(c@, self.root_path()) {
                r matches Ok(t) && t@ == crate::path::push_path(c@, name@)
            } else {
                r matches Err(m) && m@ == "'"@ + path@ + "' is outside the territory"@
            }),
    {
        match canonical_parent {
            Err(e) => {
                let mut m = string_from("cannot resolve parent of '");
                push_str(&mut m, path);
                push_str(&mut m, "': ");
                push_str(&mut m, e.as_str());
                Err(m)
            },
            Ok(c) => {
                if starts_with(c.as_str(), self.root.as_str()) {
                    let mut t = chars_of(c.as_str());
                    crate::path::push_segment(&mut t, &chars_of(name));
                    Ok(string_from_chars(&t))
                } else {
                    let mut m = string_from("'");
                    push_str(&mut m, path);
                    push_str(&mut m, "' is outside the territory");
                    Err(m)
                }
            },
        }
    }

    /// Record a successful read of `abs`.
    pub fn record_read(&mut self, abs: String, hash: String)
        ensures
            final(self).hashes() == old(self).hashes().insert(abs@, hash@),
            final(self).root_path() == old(self).root_path(),
    {
        self.read_hashes.insert(abs, hash);
    }
}

// ── Searches ────────────────────────────────────────────────────────────────

/// How a matching line shows in a search: trimmed, and cut at a character
/// boundary within 200 bytes, marked, when longer.
pub open spec fn search_shown(line: Seq<char>) -> Seq<char> {
    let t = crate::text::trim_ws(line);
    if utf8_len(t) > 200 {
        fit(t, 200) + "…"@
    } else {
        t
    }
}

/// The search hit a line makes, if it holds the pattern: the file's
/// relative path, the line number and the shown line.
pub fn search_hit(rel: &str, lineno: usize, line: &str, pattern: &str) -> (r: Option<String>)
    ensures
        crate::text::contains_seq(line@, pattern@) ==> (r matches Some(h) && h@ == rel@ + ":"@ + dec(lineno as nat) + ": "@ + search_shown(line@)),
        !crate::text::contains_seq(line@, pattern@) ==> r is None,
{
    let lv = chars_of(line);
    let pv = chars_of(pattern);
    if find_seq(&lv, &pv).is_none() {
        return None;
    }
    proof {
        assert(crate::text::contains_seq(lv@, pv@));
    }
    let t = crate::text::trim_chars(&lv);
    let mut shown = string_from_chars(&t);
    if byte_len(shown.as_str()) > 200 {
        truncate_at_boundary(&mut shown, 200);
        push_str(&mut shown, "…");
    }
    let mut h = string_from(rel);
    push_str(&mut h, ":");
    push_u64(&mut h, lineno as u64);
    push_str(&mut h, ": ");
    push_str(&mut h, shown.as_str());
    Some(h)
}

/// Texts joined with newlines.
fn join_newlines(ts: &Vec<String>) -> (r: String)
    ensures
        r@ == crate::sandbox::runner::join(ts@.map_values(|s: String| s@), "\n"@),
{
    let ghost tv = ts@.map_values(|s: String| s@);
    let mut s = String::new();
    let mut i: usize = 0;
    proof {
        assert(tv.take(0) =~= Seq::<Seq<char>>::empty());
        reveal_strlit("\n");
    }
    while i < ts.len()
        invariant
            i <= ts@.len(),
            tv == ts@.map_values(|s: String| s@),
            s@ == crate::sandbox::runner::join(tv.take(i as int), "\n"@),
        decreases ts@.len() - i,
    {
        proof {
            assert(tv.take(i + 1).drop_last() =~= tv.take(i as int));
            assert(tv.take(i + 1).last() == tv[i as int]);
        }
        if i > 0 {
            push_str(&mut s, "\n");
        } else {
            proof {
                assert(tv.take(1) =~= seq![tv[0]]);
            }
        }
        push_str(&mut s, ts[i].as_str());
        i = i + 1;
    }
    proof {
        assert(tv.take(ts@.len() as int) =~= tv);
    }
    s
}

/// The note of unreadable entries, when there were any.
pub open spec fn unreadable_note(n: nat) -> Seq<char> {
    if n > 0 {
        "\n("@ + dec(n) + " entries unreadable)"@
    } else {
        Seq::empty()
    }
}

/// The content of a search's outcome: the hits, one per line, marked when
/// the cap cut them short, then the note of unreadable entries; or, with
/// no hit, a sentence saying so.
pub fn search_output(pattern: &str, hits: &Vec<String>, truncated: bool, unreadable: usize) -> (r: String)
    ensures
        hits@.len() == 0 ==> r@ == "no matches for '"@ + pattern@ + "'"@ + unreadable_note(unreadable as nat),
        hits@.len() > 0 ==> r@ == crate::sandbox::runner::join(hits@.map_values(|s: String| s@), "\n"@) + (if truncated {
            "\n... (truncated at "@ + dec(SEARCH_MATCH_CAP as nat) + " matches)"@
        } else {
            Seq::<char>::empty()
        }) + unreadable_note(unreadable as nat),
{
    let mut note = String::new();
    if unreadable > 0 {
        push_str(&mut note, "\n(");
        push_u64(&mut note, unreadable as u64);
        push_str(&mut note, " entries unreadable)");
    }
    if hits.len() == 0 {
        let mut s = string_from("no matches for '");
        push_str(&mut s, pattern);
        push_str(&mut s, "'");
        push_str(&mut s, note.as_str());
        return s;
    }
    let mut out = join_newlines(hits);
    if truncated {
        push_str(&mut out, "\n... (truncated at ");
        push_u64(&mut out, SEARCH_MATCH_CAP as u64);
        push_str(&mut out, " matches)");
    }
    push_str(&mut out, note.as_str());
    out
}


// ── Listings ────────────────────────────────────────────────────────────────

/// The content of a listing's outcome: the entries (already sorted), one
/// per line, marked when the cap cut them short; `(empty)` when there are
/// none; then the note of unreadable entries.
pub fn list_output(entries: &Vec<String>, unreadable: usize) -> (r: String)
    ensures
        r@ == (if entries@.len() == 0 {
            "(empty)"@
        } else {
            crate::sandbox::runner::join(entries@.map_values(|s: String| s@), "\n"@) + (if entries@.len() >= LIST_CAP {
                "\n... (truncated at "@ + dec(LIST_CAP as nat) + " entries)"@
            } else {
                Seq::<char>::empty()
            })
        }) + unreadable_note(unreadable as nat),
{
    let mut out = if entries.len() == 0 {
        string_from("(empty)")
    } else {
        let mut o = join_newlines(entries);
        if entries.len() >= LIST_CAP {
            push_str(&mut o, "\n... (truncated at ");
            push_u64(&mut o, LIST_CAP as u64);
            push_str(&mut o, " entries)");
        }
        o
    };
    if unreadable > 0 {
        push_str(&mut out, "\n(");
        push_u64(&mut out, unreadable as u64);
        push_str(&mut out, " entries unreadable)");
    }
    out
}

} // verus!
