//! Text building blocks shared by every module: character vectors,
//! string assembly, decimal rendering, whitespace trimming and line
//! splitting, each with a specification over `Seq<char>`.
use vstd::prelude::*;

verus! {

/// Appends one character to a string (`String::push`).
#[verifier::external_body]
pub fn push_char(s: &mut String, c: char)
    ensures
        final(s)@ == old(s)@.push(c),
{
    s.push(c)
}

/// The `Debug` rendering of a string: the text in double quotes, with the
/// characters that `char::escape_debug` escapes written as escapes.
pub uninterp spec fn str_debug(s: Seq<char>) -> Seq<char>;

/// `format!("{:?}", s)`: the `Debug` rendering of a string slice, which
/// depends on the text alone.
#[verifier::external_body]
pub(crate) fn debug_str(s: &str) -> (r: String)
    ensures
        r@ == str_debug(s@),
{
    format!("{:?}", s)
}

/// Appends a string slice, character by character.
pub fn push_str(s: &mut String, t: &str)
    ensures
        final(s)@ == old(s)@ + t@,
{
    let ghost start = s@;
    for c in it: t.chars()
        invariant
            it.seq() == t@,
            s@ == start + it.seq().subrange(0, it.index() as int),
    {
        proof {
            assert(it.seq().subrange(0, it.index() + 1) == it.seq().subrange(
                0,
                it.index() as int,
            ).push(c));
        }
        push_char(s, c);
    }
    proof {
        assert(t@.subrange(0, t@.len() as int) == t@);
    }
}

/// Appends a character sequence held in a vector.
pub fn push_chars(s: &mut String, v: &Vec<char>)
    ensures
        final(s)@ == old(s)@ + v@,
{
    let ghost start = s@;
    let mut i: usize = 0;
    while i < v.len()
        invariant
            i <= v.len(),
            s@ == start + v@.subrange(0, i as int),
        decreases v.len() - i,
    {
        proof {
            assert(v@.subrange(0, i + 1) == v@.subrange(0, i as int).push(v@[i as int]));
        }
        push_char(s, v[i]);
        i = i + 1;
    }
    proof {
        assert(v@.subrange(0, v.len() as int) == v@);
    }
}

/// A fresh string holding the characters of `v`.
pub fn string_from_chars(v: &Vec<char>) -> (s: String)
    ensures
        s@ == v@,
{
    let mut s = String::new();
    push_chars(&mut s, v);
    s
}

/// A fresh string holding the characters of `t`.
pub fn string_from(t: &str) -> (s: String)
    ensures
        s@ == t@,
{
    let mut s = String::new();
    push_str(&mut s, t);
    s
}

/// A fresh copy of a string.
pub fn copy_string(t: &String) -> (s: String)
    ensures
        s@ == t@,
{
    string_from(t.as_str())
}

/// The characters of `s`, in order.
pub fn chars_of(s: &str) -> (v: Vec<char>)
    ensures
        v@ == s@,
{
    let mut v: Vec<char> = Vec::new();
    for c in it: s.chars()
        invariant
            it.seq() == s@,
            v@ == it.seq().subrange(0, it.index() as int),
    {
        proof {
            assert(it.seq().subrange(0, it.index() + 1) == it.seq().subrange(
                0,
                it.index() as int,
            ).push(c));
        }
        v.push(c);
    }
    proof {
        assert(s@.subrange(0, s@.len() as int) == s@);
    }
    v
}

/// Whether two strings hold the same characters.
pub fn str_eq(a: &str, b: &str) -> (r: bool)
    ensures
        r == (a@ == b@),
{
    let va = chars_of(a);
    let vb = chars_of(b);
    chars_eq(&va, &vb)
}

/// Whether two character vectors are equal.
pub fn chars_eq(va: &Vec<char>, vb: &Vec<char>) -> (r: bool)
    ensures
        r == (va@ == vb@),
{
    if va.len() != vb.len() {
        return false;
    }
    let mut i: usize = 0;
    while i < va.len()
        invariant
            i <= va.len(),
            va.len() == vb.len(),
            forall|j: int| 0 <= j < i ==> va@[j] == vb@[j],
        decreases va.len() - i,
    {
        if va[i] != vb[i] {
            return false;
        }
        i = i + 1;
    }
    proof {
        assert(va@ =~= vb@);
    }
    true
}

/// Whether `needle` occurs in `hay` starting at position `at`.
pub open spec fn occurs_at(hay: Seq<char>, needle: Seq<char>, at: int) -> bool {
    0 <= at && at + needle.len() <= hay.len() && hay.subrange(at, at + needle.len()) == needle
}

/// Whether `needle` occurs anywhere in `hay`.
pub open spec fn contains_seq(hay: Seq<char>, needle: Seq<char>) -> bool {
    exists|at: int| occurs_at(hay, needle, at)
}

/// Whether `needle` occurs at position `at` (executable form).
pub fn occurs_at_exec(hay: &Vec<char>, needle: &Vec<char>, at: usize) -> (r: bool)
    ensures
        r == occurs_at(hay@, needle@, at as int),
{
    if at > hay.len() || needle.len() > hay.len() - at {
        return false;
    }
    let mut j: usize = 0;
    while j < needle.len()
        invariant
            j <= needle.len(),
            at + needle.len() <= hay.len(),
            forall|k: int| 0 <= k < j ==> hay@[at + k] == needle@[k],
        decreases needle.len() - j,
    {
        if hay[at + j] != needle[j] {
            proof {
                assert(hay@.subrange(at as int, at + needle.len())[j as int] != needle@[j as int]);
            }
            return false;
        }
        j = j + 1;
    }
    proof {
        assert(hay@.subrange(at as int, at + needle.len()) =~= needle@);
    }
    true
}

/// The first position at which `needle` occurs in `hay`, if any.
pub fn find_seq(hay: &Vec<char>, needle: &Vec<char>) -> (r: Option<usize>)
    ensures
        r matches Some(at) ==> occurs_at(hay@, needle@, at as int) && forall|k: int|
            0 <= k < at ==> !occurs_at(hay@, needle@, k),
        r is None ==> !contains_seq(hay@, needle@),
{
    if needle.len() > hay.len() {
        proof {
            assert forall|k: int| !occurs_at(hay@, needle@, k) by {}
        }
        return None;
    }
    let last = hay.len() - needle.len();
    let mut at: usize = 0;
    while at < last
        invariant
            at <= last,
            last == hay.len() - needle.len(),
            forall|k: int| 0 <= k < at ==> !occurs_at(hay@, needle@, k),
        decreases last - at,
    {
        if occurs_at_exec(hay, needle, at) {
            return Some(at);
        }
        at = at + 1;
    }
    if occurs_at_exec(hay, needle, last) {
        return Some(last);
    }
    proof {
        assert forall|k: int| !occurs_at(hay@, needle@, k) by {
            if 0 <= k && k + needle.len() <= hay@.len() {
                assert(k <= last);
                if k < last {
                    assert(k < at);
                }
            }
        }
    }
    None
}

/// Whether `c` occurs in `s`.
pub fn has_char(s: &Vec<char>, c: char) -> (r: bool)
    ensures
        r == s@.contains(c),
{
    let mut i: usize = 0;
    while i < s.len()
        invariant
            i <= s.len(),
            forall|j: int| 0 <= j < i ==> s@[j] != c,
        decreases s.len() - i,
    {
        if s[i] == c {
            return true;
        }
        i = i + 1;
    }
    false
}

// ── Decimal rendering ───────────────────────────────────────────────────────

/// The ASCII digit for `d` (0..=9).
pub open spec fn digit_char(d: int) -> char {
    (48 + d) as char
}

/// The decimal rendering of a natural number, most significant digit first.
pub open spec fn dec(n: nat) -> Seq<char>
    decreases n,
{
    if n < 10 {
        seq![digit_char(n as int)]
    } else {
        dec(n / 10).push(digit_char((n % 10) as int))
    }
}

/// The decimal rendering of an integer, with a leading minus when negative.
pub open spec fn idec(i: int) -> Seq<char> {
    if i < 0 {
        seq!['-'] + dec((-i) as nat)
    } else {
        dec(i as nat)
    }
}

/// `s` left-padded with zeros to at least `width` characters.
pub open spec fn zero_pad(s: Seq<char>, width: nat) -> Seq<char> {
    if s.len() >= width {
        s
    } else {
        Seq::new((width - s.len()) as nat, |_i: int| '0') + s
    }
}

/// Appends the decimal rendering of `n` to `out`.
pub fn push_dec(out: &mut Vec<char>, n: u64)
    ensures
        final(out)@ == old(out)@ + dec(n as nat),
    decreases n,
{
    if n >= 10 {
        push_dec(out, n / 10);
    }
    out.push(digit_of(n % 10));
}

/// Renders `n` in decimal.
pub fn fmt_u64(n: u64) -> (s: String)
    ensures
        s@ == dec(n as nat),
{
    let mut v: Vec<char> = Vec::new();
    push_dec(&mut v, n);
    proof {
        assert(v@ =~= dec(n as nat));
    }
    string_from_chars(&v)
}

/// Appends the decimal rendering of a signed value to `out`.
pub fn push_idec(out: &mut Vec<char>, i: i64)
    ensures
        final(out)@ == old(out)@ + idec(i as int),
{
    if i < 0 {
        out.push('-');
        let mag: u64 = (0i128 - i as i128) as u64;
        push_dec(out, mag);
        proof {
            assert(final(out)@ =~= old(out)@ + idec(i as int)) by {
                assert(mag as int == -(i as int));
            }
        }
    } else {
        push_dec(out, i as u64);
    }
}

/// Appends the decimal rendering of a signed value to a string.
pub fn push_int(s: &mut String, i: i64)
    ensures
        final(s)@ == old(s)@ + idec(i as int),
{
    let mut v: Vec<char> = Vec::new();
    push_idec(&mut v, i);
    proof {
        assert(v@ =~= idec(i as int));
    }
    push_chars(s, &v);
}

/// Appends the decimal rendering of an unsigned value to a string.
pub fn push_u64(s: &mut String, n: u64)
    ensures
        final(s)@ == old(s)@ + dec(n as nat),
{
    let mut v: Vec<char> = Vec::new();
    push_dec(&mut v, n);
    proof {
        assert(v@ =~= dec(n as nat));
    }
    push_chars(s, &v);
}

/// Renders a signed value in decimal.
pub fn fmt_i64(i: i64) -> (s: String)
    ensures
        s@ == idec(i as int),
{
    let mut s = String::new();
    push_int(&mut s, i);
    s
}

/// Appends `s` left-padded with zeros to `width` characters.
pub fn push_padded(out: &mut Vec<char>, s: &Vec<char>, width: usize)
    ensures
        final(out)@ == old(out)@ + zero_pad(s@, width as nat),
{
    let ghost start = out@;
    if s.len() < width {
        let pad = width - s.len();
        let mut i: usize = 0;
        while i < pad
            invariant
                i <= pad,
                pad == width - s.len(),
                out@ == start + Seq::new(i as nat, |_j: int| '0'),
            decreases pad - i,
        {
            out.push('0');
            proof {
                assert(Seq::new((i + 1) as nat, |_j: int| '0') =~= Seq::new(
                    i as nat,
                    |_j: int| '0',
                ).push('0'));
            }
            i = i + 1;
        }
    }
    let ghost mid = out@;
    let mut k: usize = 0;
    while k < s.len()
        invariant
            k <= s.len(),
            out@ == mid + s@.subrange(0, k as int),
        decreases s.len() - k,
    {
        proof {
            assert(s@.subrange(0, k + 1) == s@.subrange(0, k as int).push(s@[k as int]));
        }
        out.push(s[k]);
        k = k + 1;
    }
    proof {
        assert(s@.subrange(0, s.len() as int) == s@);
        assert(out@ =~= start + zero_pad(s@, width as nat));
    }
}

/// The digit character for a value below ten.
pub fn digit_of(d: u64) -> (c: char)
    requires
        d < 10,
    ensures
        c == digit_char(d as int),
{
    if d == 0 {
        '0'
    } else if d == 1 {
        '1'
    } else if d == 2 {
        '2'
    } else if d == 3 {
        '3'
    } else if d == 4 {
        '4'
    } else if d == 5 {
        '5'
    } else if d == 6 {
        '6'
    } else if d == 7 {
        '7'
    } else if d == 8 {
        '8'
    } else {
        '9'
    }
}


// ── Lines ───────────────────────────────────────────────────────────────────

/// The position of the first `c` in `s`, if any.
pub open spec fn first_index(s: Seq<char>, c: char) -> Option<int>
    decreases s.len(),
{
    if s.len() == 0 {
        None
    } else if s[0] == c {
        Some(0)
    } else {
        match first_index(s.drop_first(), c) {
            Some(i) => Some(i + 1),
            None => None,
        }
    }
}

/// A line's text without its carriage return, when one precedes the newline.
pub open spec fn strip_cr(line: Seq<char>) -> Seq<char> {
    if line.len() > 0 && line.last() == '\r' {
        line.drop_last()
    } else {
        line
    }
}

/// The lines of a text as `str::lines` yields them: split at `\n` or
/// `\r\n`; a final line ending is optional; a bare `\r` stays.
pub open spec fn lines_of(s: Seq<char>) -> Seq<Seq<char>>
    decreases s.len(),
{
    if s.len() == 0 {
        Seq::empty()
    } else {
        match first_index(s, '\n') {
            Some(i) => if 0 <= i < s.len() {
                seq![strip_cr(s.subrange(0, i))] + lines_of(s.subrange(i + 1, s.len() as int))
            } else {
                Seq::empty()
            },
            None => seq![s],
        }
    }
}

proof fn lemma_first_index_props(s: Seq<char>, c: char)
    ensures
        first_index(s, c) matches Some(i) ==> 0 <= i < s.len() && s[i] == c && forall|j: int|
            0 <= j < i ==> s[j] != c,
        first_index(s, c) is None ==> forall|j: int| 0 <= j < s.len() ==> s[j] != c,
    decreases s.len(),
{
    if s.len() > 0 && s[0] != c {
        lemma_first_index_props(s.drop_first(), c);
        if first_index(s.drop_first(), c) is None {
            assert forall|j: int| 0 <= j < s.len() implies s[j] != c by {
                if j > 0 {
                    assert(s[j] == s.drop_first()[j - 1]);
                }
            }
        } else {
            let i = first_index(s.drop_first(), c)->0;
            assert forall|j: int| 0 <= j < i + 1 implies s[j] != c by {
                if j > 0 {
                    assert(s[j] == s.drop_first()[j - 1]);
                }
            }
        }
    }
}

/// `first_index` is the unique position before which `c` does not occur.
pub proof fn lemma_first_index_at(s: Seq<char>, c: char, i: int)
    requires
        0 <= i <= s.len(),
        i < s.len() ==> s[i] == c,
        forall|j: int| 0 <= j < i ==> s[j] != c,
    ensures
        i < s.len() ==> first_index(s, c) == Some(i),
        i == s.len() ==> first_index(s, c) is None,
{
    lemma_first_index_props(s, c);
    if first_index(s, c) is Some {
        let k = first_index(s, c)->0;
        if k < i {
            assert(s[k] == c);
        }
    }
}

/// The lines of `s` as `str::lines` yields them.
pub fn lines(s: &str) -> (r: Vec<Vec<char>>)
    ensures
        r@.map_values(|l: Vec<char>| l@) == lines_of(s@),
{
    let v = chars_of(s);
    lines_of_chars(&v)
}

/// The lines of a character vector.
#[verifier::loop_isolation(false)]
#[verifier::spinoff_prover]
#[verifier::rlimit(50)]
pub fn lines_of_chars(v: &Vec<char>) -> (r: Vec<Vec<char>>)
    ensures
        r@.map_values(|l: Vec<char>| l@) == lines_of(v@),
{
    let mut out: Vec<Vec<char>> = Vec::new();
    let mut start: usize = 0;
    proof {
        assert(v@.subrange(0, v.len() as int) =~= v@);
        assert(out@.map_values(|l: Vec<char>| l@) =~= Seq::<Seq<char>>::empty());
    }
    while start < v.len()
        invariant
            start <= v.len(),
            out@.map_values(|l: Vec<char>| l@) + lines_of(v@.subrange(start as int, v.len() as int))
                == lines_of(v@),
        decreases v.len() - start,
    {
        let ghost rest = v@.subrange(start as int, v.len() as int);
        let mut i: usize = start;
        while i < v.len() && v[i] != '\n'
            invariant
                start <= i <= v.len(),
                forall|j: int| start <= j < i ==> v@[j] != '\n',
            decreases v.len() - i,
        {
            i = i + 1;
        }
        let mut line: Vec<char> = Vec::new();
        let mut k: usize = start;
        while k < i
            invariant
                start <= k <= i,
                line@ == v@.subrange(start as int, k as int),
            decreases i - k,
        {
            line.push(v[k]);
            proof {
                assert(v@.subrange(start as int, k + 1) == v@.subrange(start as int, k as int).push(
                    v@[k as int],
                ));
            }
            k = k + 1;
        }
        proof {
            lemma_first_index_at(rest, '\n', (i - start) as int);
            assert forall|j: int| 0 <= j < i - start implies rest[j] != '\n' by {
                assert(rest[j] == v@[start + j]);
            }
        }
        if i < v.len() {
            // a newline ends this line
            let n = line.len();
            if n > 0 && line[n - 1] == '\r' {
                line.pop();
            }
            proof {
                assert(rest.subrange(0, (i - start) as int) =~= v@.subrange(start as int, i as int));
                assert(rest.subrange((i - start) + 1, rest.len() as int) =~= v@.subrange(
                    i + 1,
                    v.len() as int,
                ));
                assert(line@ == strip_cr(v@.subrange(start as int, i as int)));
                let old_out = out@;
                assert(old_out.push(line).map_values(|l: Vec<char>| l@) =~= old_out.map_values(
                    |l: Vec<char>| l@,
                ).push(line@));
                assert(lines_of(rest) == seq![line@] + lines_of(
                    v@.subrange(i + 1, v.len() as int),
                ));
            }
            out.push(line);
            start = i + 1;
            proof {
                assert(out@.map_values(|l: Vec<char>| l@) + lines_of(
                    v@.subrange(start as int, v.len() as int),
                ) =~= lines_of(v@));
            }
        } else {
            proof {
                assert(rest =~= v@.subrange(start as int, i as int));
                assert(lines_of(rest) == seq![rest]);
                let old_out = out@;
                assert(old_out.push(line).map_values(|l: Vec<char>| l@) =~= old_out.map_values(
                    |l: Vec<char>| l@,
                ).push(line@));
                assert(lines_of(v@.subrange(v.len() as int, v.len() as int)) == Seq::<
                    Seq<char>,
                >::empty()) by {
                    assert(v@.subrange(v.len() as int, v.len() as int).len() == 0);
                }
            }
            out.push(line);
            start = i;
            proof {
                assert(out@.map_values(|l: Vec<char>| l@) + lines_of(
                    v@.subrange(start as int, v.len() as int),
                ) =~= lines_of(v@));
            }
        }
    }
    proof {
        assert(lines_of(v@.subrange(start as int, v.len() as int)) == Seq::<Seq<char>>::empty())
            by {
            assert(v@.subrange(start as int, v.len() as int).len() == 0);
        }
        assert(out@.map_values(|l: Vec<char>| l@) =~= lines_of(v@));
    }
    out
}

// ── Whitespace ──────────────────────────────────────────────────────────────

/// Unicode `White_Space`, as `char::is_whitespace` decides it.
pub open spec fn is_ws(c: char) -> bool {
    c == ' ' || ('\t' <= c && c <= '\r') || c == '\u{85}' || c == '\u{a0}' || c == '\u{1680}'
        || ('\u{2000}' <= c && c <= '\u{200a}') || c == '\u{2028}' || c == '\u{2029}' || c
        == '\u{202f}' || c == '\u{205f}' || c == '\u{3000}'
}

/// Whether `c` is whitespace (executable form of [`is_ws`]).
pub fn is_ws_exec(c: char) -> (r: bool)
    ensures
        r == is_ws(c),
{
    c == ' ' || ('\t' <= c && c <= '\r') || c == '\u{85}' || c == '\u{a0}' || c == '\u{1680}' || (
    '\u{2000}' <= c && c <= '\u{200a}') || c == '\u{2028}' || c == '\u{2029}' || c == '\u{202f}'
        || c == '\u{205f}' || c == '\u{3000}'
}

/// Leading whitespace count.
pub open spec fn lead_ws(s: Seq<char>) -> nat
    decreases s.len(),
{
    if s.len() > 0 && is_ws(s[0]) {
        1 + lead_ws(s.drop_first())
    } else {
        0
    }
}

/// Trailing whitespace count.
pub open spec fn trail_ws(s: Seq<char>) -> nat
    decreases s.len(),
{
    if s.len() > 0 && is_ws(s.last()) {
        1 + trail_ws(s.drop_last())
    } else {
        0
    }
}

/// `s` without leading whitespace.
pub open spec fn trim_start_ws(s: Seq<char>) -> Seq<char> {
    s.subrange(lead_ws(s) as int, s.len() as int)
}

/// `s` without trailing whitespace.
pub open spec fn trim_end_ws(s: Seq<char>) -> Seq<char> {
    s.subrange(0, s.len() - trail_ws(s))
}

/// `s` without leading or trailing whitespace, as `str::trim`.
pub open spec fn trim_ws(s: Seq<char>) -> Seq<char> {
    trim_end_ws(trim_start_ws(s))
}

proof fn lemma_lead_ws_bound(s: Seq<char>)
    ensures
        lead_ws(s) <= s.len(),
        forall|j: int| 0 <= j < lead_ws(s) ==> is_ws(s[j]),
        lead_ws(s) < s.len() ==> !is_ws(s[lead_ws(s) as int]),
    decreases s.len(),
{
    if s.len() > 0 && is_ws(s[0]) {
        lemma_lead_ws_bound(s.drop_first());
        assert forall|j: int| 0 <= j < lead_ws(s) implies is_ws(s[j]) by {
            if j > 0 {
                assert(s[j] == s.drop_first()[j - 1]);
            }
        }
    }
}

proof fn lemma_trail_ws_bound(s: Seq<char>)
    ensures
        trail_ws(s) <= s.len(),
        forall|j: int| s.len() - trail_ws(s) <= j < s.len() ==> is_ws(s[j]),
        trail_ws(s) < s.len() ==> !is_ws(s[s.len() - trail_ws(s) - 1]),
    decreases s.len(),
{
    if s.len() > 0 && is_ws(s.last()) {
        lemma_trail_ws_bound(s.drop_last());
        assert forall|j: int| s.len() - trail_ws(s) <= j < s.len() implies is_ws(s[j]) by {
            if j < s.len() - 1 {
                assert(s[j] == s.drop_last()[j]);
            }
        }
    }
}

proof fn lemma_lead_ws_at(s: Seq<char>, k: int)
    requires
        0 <= k <= s.len(),
        forall|j: int| 0 <= j < k ==> is_ws(s[j]),
        k < s.len() ==> !is_ws(s[k]),
    ensures
        lead_ws(s) == k,
    decreases s.len(),
{
    if k > 0 {
        lemma_lead_ws_at(s.drop_first(), k - 1);
    }
}

proof fn lemma_trail_ws_at(s: Seq<char>, k: int)
    requires
        0 <= k <= s.len(),
        forall|j: int| s.len() - k <= j < s.len() ==> is_ws(s[j]),
        k < s.len() ==> !is_ws(s[s.len() - k - 1]),
    ensures
        trail_ws(s) == k,
    decreases s.len(),
{
    if k > 0 {
        assert forall|j: int| s.drop_last().len() - (k - 1) <= j < s.drop_last().len() implies is_ws(
            s.drop_last()[j],
        ) by {
            assert(s.drop_last()[j] == s[j]);
        }
        if k - 1 < s.drop_last().len() {
            assert(s.drop_last()[s.drop_last().len() - (k - 1) - 1] == s[s.len() - k - 1]);
        }
        lemma_trail_ws_at(s.drop_last(), k - 1);
    }
}

/// `v` without leading or trailing whitespace.
#[verifier::loop_isolation(false)]
pub fn trim_chars(v: &Vec<char>) -> (r: Vec<char>)
    ensures
        r@ == trim_ws(v@),
{
    let mut lo: usize = 0;
    while lo < v.len() && is_ws_exec(v[lo])
        invariant
            lo <= v.len(),
            forall|j: int| 0 <= j < lo ==> is_ws(v@[j]),
        decreases v.len() - lo,
    {
        lo = lo + 1;
    }
    proof {
        lemma_lead_ws_at(v@, lo as int);
    }
    let mut hi: usize = v.len();
    while hi > lo && is_ws_exec(v[hi - 1])
        invariant
            lo <= hi <= v.len(),
            forall|j: int| hi <= j < v.len() ==> is_ws(v@[j]),
        decreases hi,
    {
        hi = hi - 1;
    }
    let ghost t = trim_start_ws(v@);
    proof {
        assert(t =~= v@.subrange(lo as int, v.len() as int));
        lemma_trail_ws_at(t, (v.len() - hi) as int);
    }
    let mut r: Vec<char> = Vec::new();
    let mut k: usize = lo;
    while k < hi
        invariant
            lo <= k <= hi,
            r@ == v@.subrange(lo as int, k as int),
        decreases hi - k,
    {
        r.push(v[k]);
        proof {
            assert(v@.subrange(lo as int, k + 1) == v@.subrange(lo as int, k as int).push(
                v@[k as int],
            ));
        }
        k = k + 1;
    }
    proof {
        assert(r@ =~= trim_ws(v@));
    }
    r
}

/// Whether every character of `s` is whitespace.
pub open spec fn all_ws(s: Seq<char>) -> bool {
    forall|j: int| 0 <= j < s.len() ==> is_ws(s[j])
}

/// Whether a text is empty after trimming (`str::trim().is_empty()`).
pub fn is_blank(v: &Vec<char>) -> (r: bool)
    ensures
        r == all_ws(v@),
        r == (trim_ws(v@).len() == 0),
{
    let t = trim_chars(v);
    proof {
        lemma_lead_ws_bound(v@);
        lemma_trail_ws_bound(trim_start_ws(v@));
        if t@.len() == 0 {
            assert forall|j: int| 0 <= j < v@.len() implies is_ws(v@[j]) by {
                if j >= lead_ws(v@) {
                    let ts = trim_start_ws(v@);
                    assert(ts[j - lead_ws(v@)] == v@[j]);
                }
            }
        } else {
            let ts = trim_start_ws(v@);
            assert(lead_ws(v@) < v@.len());
            assert(!is_ws(v@[lead_ws(v@) as int]));
        }
    }
    t.len() == 0
}

// ── Splitting ───────────────────────────────────────────────────────────────

/// The pieces of `s` between occurrences of `c`, as `str::split` yields
/// them: always at least one piece, empty pieces kept.
pub open spec fn split_seq(s: Seq<char>, c: char) -> Seq<Seq<char>>
    decreases s.len(),
{
    match first_index(s, c) {
        Some(i) => if 0 <= i < s.len() {
            seq![s.subrange(0, i)] + split_seq(s.subrange(i + 1, s.len() as int), c)
        } else {
            seq![s]
        },
        None => seq![s],
    }
}

/// Splits a character vector at every `c` (executable form of [`split_seq`]).
#[verifier::loop_isolation(false)]
#[verifier::spinoff_prover]
#[verifier::rlimit(50)]
pub fn split_chars(v: &Vec<char>, c: char) -> (r: Vec<Vec<char>>)
    ensures
        r@.map_values(|l: Vec<char>| l@) == split_seq(v@, c),
{
    let mut out: Vec<Vec<char>> = Vec::new();
    let mut start: usize = 0;
    let mut done = false;
    proof {
        assert(v@.subrange(0, v.len() as int) =~= v@);
        assert(out@.map_values(|l: Vec<char>| l@) =~= Seq::<Seq<char>>::empty());
    }
    while !done
        invariant
            start <= v.len(),
            !done ==> out@.map_values(|l: Vec<char>| l@) + split_seq(
                v@.subrange(start as int, v.len() as int),
                c,
            ) == split_seq(v@, c),
            done ==> out@.map_values(|l: Vec<char>| l@) == split_seq(v@, c),
        decreases v.len() - start + (if done { 0int } else { 1int }),
    {
        let ghost rest = v@.subrange(start as int, v.len() as int);
        let mut i: usize = start;
        while i < v.len() && v[i] != c
            invariant
                start <= i <= v.len(),
                forall|j: int| start <= j < i ==> v@[j] != c,
            decreases v.len() - i,
        {
            i = i + 1;
        }
        let mut piece: Vec<char> = Vec::new();
        let mut k: usize = start;
        while k < i
            invariant
                start <= k <= i,
                piece@ == v@.subrange(start as int, k as int),
            decreases i - k,
        {
            piece.push(v[k]);
            proof {
                assert(v@.subrange(start as int, k + 1) == v@.subrange(start as int, k as int).push(
                    v@[k as int],
                ));
            }
            k = k + 1;
        }
        proof {
            lemma_first_index_at(rest, c, (i - start) as int);
            let old_out = out@;
            assert(old_out.push(piece).map_values(|l: Vec<char>| l@) =~= old_out.map_values(
                |l: Vec<char>| l@,
            ).push(piece@));
        }
        if i < v.len() {
            proof {
                assert(rest.subrange(0, (i - start) as int) =~= v@.subrange(start as int, i as int));
                assert(rest.subrange((i - start) + 1, rest.len() as int) =~= v@.subrange(
                    i + 1,
                    v.len() as int,
                ));
                assert(split_seq(rest, c) == seq![piece@] + split_seq(
                    v@.subrange(i + 1, v.len() as int),
                    c,
                ));
            }
            out.push(piece);
            start = i + 1;
            proof {
                assert(out@.map_values(|l: Vec<char>| l@) + split_seq(
                    v@.subrange(start as int, v.len() as int),
                    c,
                ) =~= split_seq(v@, c));
            }
        } else {
            proof {
                assert(rest =~= v@.subrange(start as int, i as int));
                assert(split_seq(rest, c) == seq![rest]);
            }
            out.push(piece);
            done = true;
            proof {
                assert(out@.map_values(|l: Vec<char>| l@) =~= split_seq(v@, c));
            }
        }
    }
    out
}

/// `v` without leading whitespace.
pub fn trim_start_chars(v: &Vec<char>) -> (r: Vec<char>)
    ensures
        r@ == trim_start_ws(v@),
{
    let mut lo: usize = 0;
    while lo < v.len() && is_ws_exec(v[lo])
        invariant
            lo <= v.len(),
            forall|j: int| 0 <= j < lo ==> is_ws(v@[j]),
        decreases v.len() - lo,
    {
        lo = lo + 1;
    }
    proof {
        lemma_lead_ws_at(v@, lo as int);
    }
    let mut r: Vec<char> = Vec::new();
    let mut k: usize = lo;
    while k < v.len()
        invariant
            lo <= k <= v.len(),
            r@ == v@.subrange(lo as int, k as int),
        decreases v.len() - k,
    {
        r.push(v[k]);
        proof {
            assert(v@.subrange(lo as int, k + 1) == v@.subrange(lo as int, k as int).push(
                v@[k as int],
            ));
        }
        k = k + 1;
    }
    r
}

/// The position of the first `c` in `v` (executable form of
/// [`first_index`]).
pub fn find_char(v: &Vec<char>, c: char) -> (r: Option<usize>)
    ensures
        r matches Some(i) ==> first_index(v@, c) == Some(i as int) && i < v@.len(),
        r is None ==> first_index(v@, c) is None,
{
    let mut i: usize = 0;
    while i < v.len()
        invariant
            i <= v.len(),
            forall|j: int| 0 <= j < i ==> v@[j] != c,
        decreases v.len() - i,
    {
        if v[i] == c {
            proof {
                lemma_first_index_at(v@, c, i as int);
            }
            return Some(i);
        }
        i = i + 1;
    }
    proof {
        lemma_first_index_at(v@, c, v.len() as int);
    }
    None
}

/// The characters of `v` from `lo` to `hi`.
pub fn slice_chars(v: &Vec<char>, lo: usize, hi: usize) -> (r: Vec<char>)
    requires
        lo <= hi <= v.len(),
    ensures
        r@ == v@.subrange(lo as int, hi as int),
{
    let mut r: Vec<char> = Vec::new();
    let mut k: usize = lo;
    while k < hi
        invariant
            lo <= k <= hi,
            hi <= v.len(),
            r@ == v@.subrange(lo as int, k as int),
        decreases hi - k,
    {
        r.push(v[k]);
        proof {
            assert(v@.subrange(lo as int, k + 1) == v@.subrange(lo as int, k as int).push(
                v@[k as int],
            ));
        }
        k = k + 1;
    }
    r
}

/// Trimming a trimmed text changes nothing.
/// A text that starts and ends with something other than whitespace is
/// its own trim.
pub proof fn lemma_trim_ws_fixed(s: Seq<char>)
    requires
        s.len() > 0,
        !is_ws(s[0]),
        !is_ws(s.last()),
    ensures
        trim_ws(s) == s,
{
    lemma_lead_ws_at(s, 0);
    assert(trim_start_ws(s) =~= s);
    lemma_trail_ws_at(s, 0);
    assert(trim_end_ws(s) =~= s);
}

pub proof fn lemma_trim_idempotent(s: Seq<char>)
    ensures
        trim_ws(trim_ws(s)) == trim_ws(s),
{
    let u = trim_start_ws(s);
    let t = trim_ws(s);
    lemma_lead_ws_bound(s);
    lemma_trail_ws_bound(u);
    if t.len() == 0 {
        lemma_lead_ws_at(t, 0);
        lemma_trail_ws_at(t, 0);
        assert(trim_start_ws(t) =~= t);
        assert(trim_end_ws(t) =~= t);
    } else {
        assert(t[0] == u[0]);
        assert(u[0] == s[lead_ws(s) as int]);
        lemma_lead_ws_at(t, 0);
        assert(trim_start_ws(t) =~= t);
        assert(t[t.len() - 1] == u[u.len() - trail_ws(u) - 1]);
        lemma_trail_ws_at(t, 0);
        assert(trim_end_ws(t) =~= t);
    }
}

} // verus!
