//! JSON as the Card store inspects it: a document tree that keeps every
//! object member in order, duplicates included, for the duplicate-member
//! rule; JSON object text, parsed by `serde_json`; and JSON string
//! literals as `serde_json` writes them, which read back unambiguously.
use vstd::prelude::*;

use crate::text::{chars_of, push_char, str_eq};

verus! {

/// A JSON value with its object members in document order, duplicates
/// kept.
#[derive(Debug)]
pub enum JsonValue {
    /// `null`, a boolean, a number or a string.
    Scalar,
    /// An array.
    Array(JsonList),
    /// An object.
    Object(JsonMembers),
}

/// The elements of an array, in order.
#[derive(Debug)]
pub enum JsonList {
    Nil,
    Cons(Box<JsonValue>, Box<JsonList>),
}

/// The members of an object, in order.
#[derive(Debug)]
pub enum JsonMembers {
    Nil,
    Cons(String, Box<JsonValue>, Box<JsonMembers>),
}

/// The first duplicate member name found in `v` at any depth: arrays are
/// searched element by element; in an object, a member whose name an
/// earlier member of the same object had is the finding, else its value
/// is searched.
pub open spec fn dup_value(v: JsonValue) -> Option<Seq<char>>
    decreases v,
{
    match v {
        JsonValue::Scalar => None,
        JsonValue::Array(l) => dup_list(l),
        JsonValue::Object(m) => dup_members(m, Seq::empty()),
    }
}

/// The first duplicate member name found in an array's elements.
pub open spec fn dup_list(l: JsonList) -> Option<Seq<char>>
    decreases l,
{
    match l {
        JsonList::Nil => None,
        JsonList::Cons(h, t) => match dup_value(*h) {
            Some(n) => Some(n),
            None => dup_list(*t),
        },
    }
}

/// The first duplicate member name found in an object's members, `seen`
/// holding the names of the members before them.
pub open spec fn dup_members(m: JsonMembers, seen: Seq<Seq<char>>) -> Option<Seq<char>>
    decreases m,
{
    match m {
        JsonMembers::Nil => None,
        JsonMembers::Cons(k, v, rest) => if seen.contains(k@) {
            Some(k@)
        } else {
            match dup_value(*v) {
                Some(n) => Some(n),
                None => dup_members(*rest, seen.push(k@)),
            }
        },
    }
}

/// Whether `k` is among `seen`.
fn seen_contains(seen: &Vec<String>, k: &String) -> (r: bool)
    ensures
        r == seen@.map_values(|s: String| s@).contains(k@),
{
    let ghost sv = seen@.map_values(|s: String| s@);
    let mut i: usize = 0;
    while i < seen.len()
        invariant
            i <= seen.len(),
            sv == seen@.map_values(|s: String| s@),
            forall|j: int| 0 <= j < i ==> sv[j] != k@,
        decreases seen.len() - i,
    {
        if str_eq(seen[i].as_str(), k.as_str()) {
            proof {
                assert(sv[i as int] == k@);
            }
            return true;
        }
        i = i + 1;
    }
    false
}

/// The first duplicate member name in `v` (executable form of
/// [`dup_value`]).
pub fn first_duplicate(v: &JsonValue) -> (r: Option<String>)
    ensures
        r matches Some(n) ==> dup_value(*v) == Some(n@),
        r is None ==> dup_value(*v) is None,
    decreases v,
{
    match v {
        JsonValue::Scalar => None,
        JsonValue::Array(l) => first_duplicate_in_list(l),
        JsonValue::Object(m) => {
            let mut seen: Vec<String> = Vec::new();
            proof {
                assert(seen@.map_values(|s: String| s@) =~= Seq::<Seq<char>>::empty());
            }
            first_duplicate_in_members(m, &mut seen)
        },
    }
}

/// The first duplicate member name in an array's elements.
pub fn first_duplicate_in_list(l: &JsonList) -> (r: Option<String>)
    ensures
        r matches Some(n) ==> dup_list(*l) == Some(n@),
        r is None ==> dup_list(*l) is None,
    decreases l,
{
    match l {
        JsonList::Nil => None,
        JsonList::Cons(h, t) => match first_duplicate(h) {
            Some(n) => Some(n),
            None => first_duplicate_in_list(t),
        },
    }
}

/// The first duplicate member name in an object's members, `seen` holding
/// the names of the members before them.
pub fn first_duplicate_in_members(m: &JsonMembers, seen: &mut Vec<String>) -> (r: Option<String>)
    ensures
        r matches Some(n) ==> dup_members(*m, old(seen)@.map_values(|s: String| s@)) == Some(n@),
        r is None ==> dup_members(*m, old(seen)@.map_values(|s: String| s@)) is None,
    decreases m,
{
    match m {
        JsonMembers::Nil => None,
        JsonMembers::Cons(k, v, rest) => {
            if seen_contains(seen, k) {
                return Some(k.clone());
            }
            match first_duplicate(v) {
                Some(n) => Some(n),
                None => {
                    let ghost before = seen@;
                    seen.push(k.clone());
                    proof {
                        assert(seen@.map_values(|s: String| s@) =~= before.map_values(
                            |s: String| s@,
                        ).push(k@));
                    }
                    first_duplicate_in_members(rest, seen)
                },
            }
        },
    }
}

/// What reading `raw` as a JSON object gives: when it is the text of a
/// JSON object, that object's compact serialisation (`serde_json::from_str`
/// into a map, then `serde_json::to_string`); otherwise the parser's
/// description of the failure.
pub uninterp spec fn json_object_reading(raw: Seq<char>) -> Result<Seq<char>, Seq<char>>;

/// Whether `raw` is the text of a JSON object, and if so, that object's
/// compact serialisation.
pub open spec fn json_object_text(raw: Seq<char>) -> Option<Seq<char>> {
    match json_object_reading(raw) {
        Ok(t) => Some(t),
        Err(_) => None,
    }
}

/// What the parser reports when `raw` is not the text of a JSON object.
pub open spec fn json_object_error(raw: Seq<char>) -> Seq<char> {
    match json_object_reading(raw) {
        Ok(_) => Seq::empty(),
        Err(e) => e,
    }
}

/// Parses `raw` as a JSON object with `serde_json` and serialises it back
/// compactly; on failure, the parser's description of the failure. Both
/// depend on `raw` alone.
#[verifier::external_body]
pub(crate) fn parse_json_object(raw: &str) -> (r: Result<String, String>)
    ensures
        json_object_reading(raw@) == match r {
            Ok(t) => Ok::<Seq<char>, Seq<char>>(t@),
            Err(e) => Err::<Seq<char>, Seq<char>>(e@),
        },
{
    match serde_json::from_str::<serde_json::Map<String, serde_json::Value>>(raw) {
        Ok(map) => Ok(serde_json::Value::Object(map).to_string()),
        Err(e) => Err(e.to_string()),
    }
}


// ── JSON string literals ────────────────────────────────────────────────────

/// A lowercase hexadecimal digit.
pub open spec fn lower_hex(d: int) -> char {
    if d < 10 {
        (48 + d) as char
    } else {
        (87 + d) as char
    }
}

/// How `serde_json` writes one character inside a string literal: `"` and
/// `\` backslash-escaped; backspace, tab, line feed, form feed and
/// carriage return as `\b \t \n \f \r`; the other control characters as
/// `\u00` and two lowercase hexadecimal digits; every other character as
/// itself.
pub open spec fn json_char(c: char) -> Seq<char> {
    if c == '"' {
        seq!['\\', '"']
    } else if c == '\\' {
        seq!['\\', '\\']
    } else if c == '\x08' {
        seq!['\\', 'b']
    } else if c == '\t' {
        seq!['\\', 't']
    } else if c == '\n' {
        seq!['\\', 'n']
    } else if c == '\x0c' {
        seq!['\\', 'f']
    } else if c == '\r' {
        seq!['\\', 'r']
    } else if (c as int) < 0x20 {
        seq!['\\', 'u', '0', '0', lower_hex((c as int) / 16), lower_hex((c as int) % 16)]
    } else {
        seq![c]
    }
}

/// The characters of a string as they stand inside its JSON literal.
pub open spec fn json_escape(s: Seq<char>) -> Seq<char>
    decreases s.len(),
{
    if s.len() == 0 {
        Seq::empty()
    } else {
        json_char(s[0]) + json_escape(s.drop_first())
    }
}

/// The JSON string literal of `s`, as `serde_json::to_string` writes it.
#[verifier::opaque]
pub open spec fn json_string(s: Seq<char>) -> Seq<char> {
    seq!['"'] + json_escape(s) + seq!['"']
}

/// Escaping a text one character longer escapes that character last.
proof fn lemma_json_escape_push(s: Seq<char>, c: char)
    ensures
        json_escape(s.push(c)) == json_escape(s) + json_char(c),
    decreases s.len(),
{
    if s.len() == 0 {
        assert(s.push(c).drop_first() =~= Seq::<char>::empty());
        assert(json_escape(s.push(c)) == json_char(c) + json_escape(Seq::<char>::empty()));
        assert(json_char(c) + Seq::<char>::empty() =~= json_char(c));
    } else {
        assert(s.push(c).drop_first() =~= s.drop_first().push(c));
        lemma_json_escape_push(s.drop_first(), c);
        assert(s.push(c)[0] == s[0]);
        assert(json_char(s[0]) + (json_escape(s.drop_first()) + json_char(c)) =~= (json_char(s[0])
            + json_escape(s.drop_first())) + json_char(c));
    }
}

/// The lowercase hexadecimal digit of `d`.
fn hex_digit(d: u32) -> (c: char)
    requires
        d < 16,
    ensures
        c == lower_hex(d as int),
{
    match d {
        0 => '0',
        1 => '1',
        2 => '2',
        3 => '3',
        4 => '4',
        5 => '5',
        6 => '6',
        7 => '7',
        8 => '8',
        9 => '9',
        10 => 'a',
        11 => 'b',
        12 => 'c',
        13 => 'd',
        14 => 'e',
        _ => 'f',
    }
}

/// Append `c` as it stands inside a JSON string literal.
fn push_json_char(out: &mut String, c: char)
    ensures
        final(out)@ == old(out)@ + json_char(c),
{
    let ghost start = out@;
    if c == '"' {
        push_char(out, '\\');
        push_char(out, '"');
    } else if c == '\\' {
        push_char(out, '\\');
        push_char(out, '\\');
    } else if c == '\x08' {
        push_char(out, '\\');
        push_char(out, 'b');
    } else if c == '\t' {
        push_char(out, '\\');
        push_char(out, 't');
    } else if c == '\n' {
        push_char(out, '\\');
        push_char(out, 'n');
    } else if c == '\x0c' {
        push_char(out, '\\');
        push_char(out, 'f');
    } else if c == '\r' {
        push_char(out, '\\');
        push_char(out, 'r');
    } else if (c as u32) < 0x20 {
        let d = c as u32;
        push_char(out, '\\');
        push_char(out, 'u');
        push_char(out, '0');
        push_char(out, '0');
        push_char(out, hex_digit(d / 16));
        push_char(out, hex_digit(d % 16));
    } else {
        push_char(out, c);
    }
    assert(out@ =~= start + json_char(c));
}

/// The JSON string literal of `s`, as `serde_json::to_string` writes a
/// `&str`: the characters escaped as [`json_char`] says, between double
/// quotes.
pub(crate) fn json_quote(s: &str) -> (r: String)
    ensures
        r@ == json_string(s@),
{
    let v = chars_of(s);
    let mut out = String::new();
    push_char(&mut out, '"');
    let mut i: usize = 0;
    while i < v.len()
        invariant
            i <= v@.len(),
            v@ == s@,
            out@ == seq!['"'] + json_escape(s@.take(i as int)),
        decreases v@.len() - i,
    {
        proof {
            assert(s@.take(i + 1) =~= s@.take(i as int).push(s@[i as int]));
            lemma_json_escape_push(s@.take(i as int), s@[i as int]);
        }
        push_json_char(&mut out, v[i]);
        i = i + 1;
    }
    push_char(&mut out, '"');
    proof {
        assert(s@.take(v@.len() as int) =~= s@);
        reveal(json_string);
    }
    out
}

/// Whether a text holds no control character below U+0020, a line break
/// among them.
pub open spec fn printable(s: Seq<char>) -> bool {
    forall|i: int| 0 <= i < s.len() ==> (#[trigger] s[i] as int) >= 0x20
}

/// Two printable texts make a printable text.
pub proof fn lemma_printable_concat(a: Seq<char>, b: Seq<char>)
    requires
        printable(a),
        printable(b),
    ensures
        printable(a + b),
{
    assert forall|i: int| 0 <= i < (a + b).len() implies ((#[trigger] (a + b)[i]) as int) >= 0x20 by {
        if i < a.len() {
            assert((a + b)[i] == a[i]);
        } else {
            assert((a + b)[i] == b[i - a.len()]);
        }
    }
}

/// A character's escape is printable: control characters are spelled out.
proof fn lemma_json_char_printable(c: char)
    ensures
        printable(json_char(c)),
{
    if (c as int) < 0x20 && c != '\x08' && c != '\t' && c != '\n' && c != '\x0c' && c != '\r' {
        let hi = (c as int) / 16;
        let lo = (c as int) % 16;
        assert(0 <= hi < 2);
        assert(0 <= lo < 16);
        assert((lower_hex(hi) as int) >= 48);
        assert((lower_hex(lo) as int) >= 48);
    }
}

/// The escaped characters of any text are printable.
proof fn lemma_json_escape_printable(s: Seq<char>)
    ensures
        printable(json_escape(s)),
    decreases s.len(),
{
    if s.len() > 0 {
        lemma_json_char_printable(s[0]);
        lemma_json_escape_printable(s.drop_first());
        lemma_printable_concat(json_char(s[0]), json_escape(s.drop_first()));
    }
}

/// A JSON string literal is printable, whatever text it holds: it never
/// breaks a line.
pub proof fn lemma_json_string_printable(s: Seq<char>)
    ensures
        printable(json_string(s)),
{
    reveal(json_string);
    lemma_json_escape_printable(s);
    lemma_printable_concat(seq!['"'], json_escape(s));
    lemma_printable_concat(seq!['"'] + json_escape(s), seq!['"']);
}

/// A character's escape is never empty, and it begins with the character
/// itself unless it begins with a backslash; never with a double quote.
proof fn lemma_json_char_head(c: char)
    ensures
        json_char(c).len() > 0,
        json_char(c)[0] == c || json_char(c)[0] == '\\',
        json_char(c)[0] != '"',
        json_char(c)[0] == '\\' ==> json_char(c).len() >= 2,
        c == '\\' ==> json_char(c)[0] == '\\',
        c != '"' && c != '\\' && (c as int) >= 0x20 ==> json_char(c) == seq![c],
{
}

/// Two characters whose escapes begin a common text are the same
/// character: no escape is a proper prefix of another.
proof fn lemma_json_char_prefix_free(x: char, y: char, r1: Seq<char>, r2: Seq<char>)
    requires
        json_char(x) + r1 == json_char(y) + r2,
    ensures
        x == y,
        r1 == r2,
{
    lemma_json_char_head(x);
    lemma_json_char_head(y);
    let jx = json_char(x);
    let jy = json_char(y);
    assert((jx + r1)[0] == jx[0]);
    assert((jy + r2)[0] == jy[0]);
    if jx[0] != '\\' {
        assert(jx == seq![x]);
        assert(jy[0] == x);
        assert(x == y);
    } else {
        assert((jx + r1)[1] == jx[1]);
        assert((jy + r2)[1] == jy[1]);
        if jx[1] == 'u' {
            assert(jy[1] == 'u');
            assert((jx + r1)[4] == jx[4]);
            assert((jy + r2)[4] == jy[4]);
            assert((jx + r1)[5] == jx[5]);
            assert((jy + r2)[5] == jy[5]);
            let a = x as int;
            let b = y as int;
            assert(0 <= a < 0x20 && 0 <= b < 0x20);
            assert(lower_hex(a / 16) == lower_hex(b / 16));
            assert(lower_hex(a % 16) == lower_hex(b % 16));
            assert(a / 16 == b / 16);
            assert(a % 16 == b % 16);
            assert(a == b) by (nonlinear_arith)
                requires
                    a / 16 == b / 16,
                    a % 16 == b % 16,
            ;
        }
        assert(x == y);
    }
    assert(r1 =~= (jx + r1).skip(jx.len() as int));
    assert(r2 =~= (jy + r2).skip(jy.len() as int));
}

/// A JSON string literal's body is read back unambiguously: what follows
/// the closing quote is determined, and so is the string.
pub proof fn lemma_json_escape_closes(a: Seq<char>, b: Seq<char>, r1: Seq<char>, r2: Seq<char>)
    requires
        json_escape(a) + seq!['"'] + r1 == json_escape(b) + seq!['"'] + r2,
    ensures
        a == b,
        r1 == r2,
    decreases a.len(),
{
    if a.len() == 0 {
        if b.len() > 0 {
            lemma_json_char_head(b[0]);
            assert((json_escape(b) + seq!['"'] + r2)[0] == json_char(b[0])[0]);
            assert((json_escape(a) + seq!['"'] + r1)[0] == '"');
        }
        assert(b.len() == 0);
        assert(r1 =~= (json_escape(a) + seq!['"'] + r1).skip(1));
        assert(r2 =~= (json_escape(b) + seq!['"'] + r2).skip(1));
    } else {
        lemma_json_char_head(a[0]);
        if b.len() == 0 {
            assert((json_escape(a) + seq!['"'] + r1)[0] == json_char(a[0])[0]);
            assert((json_escape(b) + seq!['"'] + r2)[0] == '"');
        }
        assert(b.len() > 0);
        let t1 = json_escape(a.drop_first()) + seq!['"'] + r1;
        let t2 = json_escape(b.drop_first()) + seq!['"'] + r2;
        assert(json_escape(a) + seq!['"'] + r1 =~= json_char(a[0]) + t1);
        assert(json_escape(b) + seq!['"'] + r2 =~= json_char(b[0]) + t2);
        lemma_json_char_prefix_free(a[0], b[0], t1, t2);
        lemma_json_escape_closes(a.drop_first(), b.drop_first(), r1, r2);
        assert(a =~= seq![a[0]] + a.drop_first());
        assert(b =~= seq![b[0]] + b.drop_first());
    }
}

/// A JSON string literal followed by anything determines the string and
/// what follows.
pub proof fn lemma_json_string_prefix(a: Seq<char>, b: Seq<char>, r1: Seq<char>, r2: Seq<char>)
    requires
        json_string(a) + r1 == json_string(b) + r2,
    ensures
        a == b,
        r1 == r2,
{
    reveal(json_string);
    let s1 = json_string(a) + r1;
    let s2 = json_string(b) + r2;
    assert(s1.drop_first() =~= json_escape(a) + seq!['"'] + r1);
    assert(s2.drop_first() =~= json_escape(b) + seq!['"'] + r2);
    lemma_json_escape_closes(a, b, r1, r2);
}

/// A JSON string literal opens with a double quote.
pub proof fn lemma_json_string_opens(s: Seq<char>)
    ensures
        json_string(s).len() >= 2,
        json_string(s)[0] == '"',
{
    reveal(json_string);
}

/// Distinct strings have distinct JSON literals.
pub proof fn law_json_strings_are_distinct(a: Seq<char>, b: Seq<char>)
    requires
        json_string(a) == json_string(b),
    ensures
        a == b,
{
    assert(json_string(a) + Seq::<char>::empty() =~= json_string(a));
    assert(json_string(b) + Seq::<char>::empty() =~= json_string(b));
    lemma_json_string_prefix(a, b, Seq::empty(), Seq::empty());
}

} // verus!
