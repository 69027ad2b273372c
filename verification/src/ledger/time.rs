//! Ledger timestamps: "YYYY-MM-DDTHH:MM:SS…" (UTC) to epoch seconds and
//! back, by Howard Hinnant's civil-calendar algorithms.
use vstd::prelude::*;

use vstd::string::StringSliceAdditionalSpecFns;

use crate::text::{dec, push_dec, push_padded, string_from_chars, zero_pad};

verus! {

// ── Reading ─────────────────────────────────────────────────────────────────

/// Whether a byte is an ASCII decimal digit.
pub open spec fn is_digit_byte(b: u8) -> bool {
    48 <= b <= 57
}

/// The value of a run of ASCII digits, most significant first.
pub open spec fn digits_value(s: Seq<u8>) -> int
    decreases s.len(),
{
    if s.len() == 0 {
        0
    } else {
        digits_value(s.drop_last()) * 10 + (s.last() - 48)
    }
}

/// Whether every byte of `s` is an ASCII digit.
pub open spec fn all_digits(s: Seq<u8>) -> bool {
    forall|i: int| 0 <= i < s.len() ==> is_digit_byte(#[trigger] s[i])
}

/// Integer text as `str::parse::<i64>` reads a short field: an optional
/// `+` or `-` followed by at least one ASCII digit, nothing else.
pub open spec fn int_field(s: Seq<u8>) -> Option<int> {
    if s.len() > 0 && (s[0] == 43u8 || s[0] == 45u8) {
        let rest = s.drop_first();
        if rest.len() > 0 && all_digits(rest) {
            if s[0] == 45u8 {
                Some(-digits_value(rest))
            } else {
                Some(digits_value(rest))
            }
        } else {
            None
        }
    } else if s.len() > 0 && all_digits(s) {
        Some(digits_value(s))
    } else {
        None
    }
}

/// The field held by bytes `lo..hi` of `b`, when they exist and parse.
pub open spec fn field_at(b: Seq<u8>, lo: int, hi: int) -> Option<int> {
    if hi <= b.len() {
        int_field(b.subrange(lo, hi))
    } else {
        None
    }
}

/// Integer division truncating toward zero, as Rust's `/` on signed values.
pub open spec fn tdiv(a: int, b: int) -> int {
    if a >= 0 {
        a / b
    } else {
        -((-a) / b)
    }
}

/// Days since 1970-01-01 of a civil date (Hinnant's `days_from_civil`),
/// with Rust's truncating division.
#[verifier::opaque]
pub open spec fn days_from_civil(y: int, mo: int, d: int) -> int {
    let y2 = if mo <= 2 {
        y - 1
    } else {
        y
    };
    let era = tdiv(
        if y2 >= 0 {
            y2
        } else {
            y2 - 399
        },
        400,
    );
    let yoe = y2 - era * 400;
    let doy = tdiv(
        153 * (if mo > 2 {
            mo - 3
        } else {
            mo + 9
        }) + 2,
        5,
    ) + d - 1;
    let doe = yoe * 365 + tdiv(yoe, 4) - tdiv(yoe, 100) + doy;
    era * 146097 + doe - 719468
}

/// The epoch seconds a ledger timestamp denotes: fields at byte ranges
/// 0..4, 5..7, 8..10, 11..13, 14..16 and 17..19; month in 1..=12, day in
/// 1..=31; the total must be a nonnegative `u64`. Anything after the
/// seconds is ignored.
pub open spec fn ts_epoch(b: Seq<u8>) -> Option<int> {
    match (
        field_at(b, 0, 4),
        field_at(b, 5, 7),
        field_at(b, 8, 10),
        field_at(b, 11, 13),
        field_at(b, 14, 16),
        field_at(b, 17, 19),
    ) {
        (Some(y), Some(mo), Some(d), Some(h), Some(mi), Some(s)) => {
            if !(1 <= mo <= 12) || !(1 <= d <= 31) {
                None
            } else {
                let total = days_from_civil(y, mo, d) * 86400 + h * 3600 + mi * 60 + s;
                if 0 <= total <= u64::MAX {
                    Some(total)
                } else {
                    None
                }
            }
        },
        _ => None,
    }
}

/// Bytes after the first nineteen change nothing a timestamp reads.
proof fn lemma_suffix_ignored(t: Seq<u8>, rest: Seq<u8>)
    requires
        t.len() == 19,
    ensures
        ts_epoch(t + rest) == ts_epoch(t),
{
    let u = t + rest;
    assert(u.subrange(0, 4) =~= t.subrange(0, 4));
    assert(u.subrange(5, 7) =~= t.subrange(5, 7));
    assert(u.subrange(8, 10) =~= t.subrange(8, 10));
    assert(u.subrange(11, 13) =~= t.subrange(11, 13));
    assert(u.subrange(14, 16) =~= t.subrange(14, 16));
    assert(u.subrange(17, 19) =~= t.subrange(17, 19));
}

/// Anything after the seconds is ignored: a timestamp of at least
/// nineteen bytes reads as its first nineteen (through the seconds) do,
/// to the same epoch second or to nothing.
pub proof fn law_after_the_seconds_is_ignored(b: Seq<u8>)
    requires
        b.len() >= 19,
    ensures
        ts_epoch(b) == ts_epoch(b.take(19)),
{
    assert(b =~= b.take(19) + b.skip(19));
    lemma_suffix_ignored(b.take(19), b.skip(19));
}

/// Reads the field at bytes `lo..hi`.
fn read_field(b: &[u8], lo: usize, hi: usize) -> (r: Option<i64>)
    requires
        lo + 5 >= hi,
        lo < hi,
    ensures
        r matches Some(v) ==> field_at(b@, lo as int, hi as int) == Some(v as int) && -100000
            < v < 100000,
        r is None ==> field_at(b@, lo as int, hi as int) is None,
{
    if hi > b.len() {
        return None;
    }
    let ghost s = b@.subrange(lo as int, hi as int);
    let mut i: usize = lo;
    let mut neg = false;
    if b[lo] == 43u8 || b[lo] == 45u8 {
        neg = b[lo] == 45u8;
        i = lo + 1;
        if i == hi {
            return None;
        }
    }
    let start = i;
    let mut v: i64 = 0;
    while i < hi
        invariant
            lo <= start <= i <= hi <= b.len(),
            hi <= lo + 5,
            s == b@.subrange(lo as int, hi as int),
            start == lo || start == lo + 1,
            start == lo + 1 ==> (b@[lo as int] == 43u8 || b@[lo as int] == 45u8) && neg == (
            b@[lo as int] == 45u8) && start < hi,
            start == lo ==> !(b@[lo as int] == 43u8 || b@[lo as int] == 45u8) && !neg,
            all_digits(b@.subrange(start as int, i as int)),
            v == digits_value(b@.subrange(start as int, i as int)),
            0 <= v < 100000,
            v < pow10((i - start) as nat),
        decreases hi - i,
    {
        if !(48u8 <= b[i] && b[i] <= 57u8) {
            proof {
                let rest = b@.subrange(start as int, hi as int);
                assert(rest[(i - start) as int] == b@[i as int]);
                if start == lo + 1 {
                    assert(s.drop_first() =~= rest);
                } else {
                    assert(s =~= rest);
                }
            }
            return None;
        }
        proof {
            let pre = b@.subrange(start as int, i as int);
            let post = b@.subrange(start as int, i + 1);
            assert(post.drop_last() =~= pre);
            assert(post.last() == b@[i as int]);
            lemma_pow10_step((i - start) as nat);
        }
        v = v * 10 + (b[i] - 48u8) as i64;
        i = i + 1;
    }
    proof {
        let rest = b@.subrange(start as int, hi as int);
        if start == lo + 1 {
            assert(s.drop_first() =~= rest);
            assert(s[0] == b@[lo as int]);
        } else {
            assert(s =~= rest);
            assert(s[0] == b@[lo as int]);
        }
    }
    if neg {
        Some(-v)
    } else {
        Some(v)
    }
}

/// Ten to the power `k`.
pub open spec fn pow10(k: nat) -> int
    decreases k,
{
    if k == 0 {
        1
    } else {
        10 * pow10((k - 1) as nat)
    }
}

proof fn lemma_pow10_step(k: nat)
    ensures
        pow10(k + 1) == 10 * pow10(k),
        k <= 4 ==> pow10(k) <= 10000,
        pow10(k) >= 1,
    decreases k,
{
    reveal_with_fuel(pow10, 5);
    if k > 0 {
        lemma_pow10_step((k - 1) as nat);
    }
}

/// Parses a ledger timestamp ("YYYY-MM-DDTHH:MM:SS…", UTC assumed) to
/// epoch seconds. Anything after the seconds — "Z", ".123Z" — is ignored.
pub fn parse_ts(ts: &str) -> (r: Option<u64>)
    ensures
        r matches Some(v) ==> ts_epoch(ts.spec_bytes()) == Some(v as int),
        r is None ==> ts_epoch(ts.spec_bytes()) is None,
{
    let b = ts.as_bytes();
    let y = match read_field(b, 0, 4) {
        Some(v) => v,
        None => return None,
    };
    let mo = match read_field(b, 5, 7) {
        Some(v) => v,
        None => return None,
    };
    let d = match read_field(b, 8, 10) {
        Some(v) => v,
        None => return None,
    };
    let h = match read_field(b, 11, 13) {
        Some(v) => v,
        None => return None,
    };
    let mi = match read_field(b, 14, 16) {
        Some(v) => v,
        None => return None,
    };
    let s = match read_field(b, 17, 19) {
        Some(v) => v,
        None => return None,
    };
    if !(1 <= mo && mo <= 12) || !(1 <= d && d <= 31) {
        return None;
    }
    let y2: i64 = if mo <= 2 {
        y - 1
    } else {
        y
    };
    let era: i64 = if y2 >= 0 {
        y2 / 400
    } else {
        -((399 - y2) / 400)
    };
    let yoe: i64 = y2 - era * 400;
    let mshift: i64 = if mo > 2 {
        mo - 3
    } else {
        mo + 9
    };
    let doy: i64 = (153 * mshift + 2) / 5 + d - 1;
    proof {
        assert(0 <= yoe < 400) by (nonlinear_arith)
            requires
                era == tdiv(
                    if y2 >= 0 {
                        y2 as int
                    } else {
                        y2 - 399
                    },
                    400,
                ),
                yoe == y2 - era * 400,
        {
        }
    }
    let doe: i64 = yoe * 365 + yoe / 4 - yoe / 100 + doy;
    let days: i64 = era * 146097 + doe - 719468;
    let total: i64 = days * 86400 + h * 3600 + mi * 60 + s;
    proof {
        reveal(days_from_civil);
        assert(days == days_from_civil(y as int, mo as int, d as int));
    }
    if total < 0 {
        None
    } else {
        Some(total as u64)
    }
}

// ── Writing ─────────────────────────────────────────────────────────────────

/// The civil date `(year, month, day)` of a nonnegative day count since
/// 1970-01-01 (Hinnant's `civil_from_days`).
#[verifier::opaque]
pub open spec fn civil_from_days(days: nat) -> (int, int, int) {
    let z = days + 719468;
    let era = z / 146097;
    let doe = z - era * 146097;
    let yoe = (doe - doe / 1460 + doe / 36524 - doe / 146096) / 365;
    let doy = doe - (365 * yoe + yoe / 4 - yoe / 100);
    let mp = (5 * doy + 2) / 153;
    let d = doy - (153 * mp + 2) / 5 + 1;
    let m = if mp < 10 {
        mp + 3
    } else {
        mp - 9
    };
    let y = yoe + era * 400 + if m <= 2 {
        1int
    } else {
        0int
    };
    (y, m, d)
}

/// Within one 400-year era the year-of-era lies in 0..=399 and the
/// day-of-year it leaves lies in 0..=365.
proof fn lemma_era_day(doe: u32)
    by (bit_vector)
    requires
        doe < 146097,
    ensures
        (doe - doe / 1460 + doe / 36524 - doe / 146096) / 365 <= 399,
        365 * ((doe - doe / 1460 + doe / 36524 - doe / 146096) / 365) + ((doe - doe / 1460 + doe
            / 36524 - doe / 146096) / 365) / 4 - ((doe - doe / 1460 + doe / 36524 - doe / 146096)
            / 365) / 100 <= doe,
        doe - (365 * ((doe - doe / 1460 + doe / 36524 - doe / 146096) / 365) + ((doe - doe / 1460
            + doe / 36524 - doe / 146096) / 365) / 4 - ((doe - doe / 1460 + doe / 36524 - doe
            / 146096) / 365) / 100) <= 365,
{
}

/// Two-digit zero-padded decimal.
pub open spec fn two(n: int) -> Seq<char> {
    zero_pad(dec(n as nat), 2)
}

/// "YYYY-MM-DDTHH:MM:SSZ" for epoch seconds.
pub open spec fn ts_text(epoch: nat) -> Seq<char> {
    let (y, m, d) = civil_from_days(epoch / 86400);
    let secs = epoch % 86400;
    zero_pad(dec(y as nat), 4) + seq!['-'] + two(m) + seq!['-'] + two(d) + seq!['T'] + two(
        (secs / 3600) as int,
    ) + seq![':'] + two(((secs % 3600) / 60) as int) + seq![':'] + two((secs % 60) as int) + seq![
        'Z',
    ]
}

/// Appends `n` zero-padded to `width` digits.
fn push_num(out: &mut Vec<char>, n: u64, width: usize)
    ensures
        final(out)@ == old(out)@ + zero_pad(dec(n as nat), width as nat),
{
    let mut digits: Vec<char> = Vec::new();
    push_dec(&mut digits, n);
    proof {
        assert(digits@ =~= dec(n as nat));
    }
    push_padded(out, &digits, width);
}

/// The inverse of `parse_ts`: epoch seconds to "YYYY-MM-DDTHH:MM:SSZ".
pub fn format_ts(epoch: u64) -> (s: String)
    ensures
        s@ == ts_text(epoch as nat),
{
    let days: u64 = epoch / 86400;
    let secs: u64 = epoch % 86400;
    let z: u64 = days + 719468;
    let era: u64 = z / 146097;
    let doe: u64 = z - era * 146097;
    let yoe: u64 = (doe - doe / 1460 + doe / 36524 - doe / 146096) / 365;
    proof {
        lemma_era_day(doe as u32);
    }
    let doy: u64 = doe - (365 * yoe + yoe / 4 - yoe / 100);
    let mp: u64 = (5 * doy + 2) / 153;
    let d: u64 = doy - (153 * mp + 2) / 5 + 1;
    let m: u64 = if mp < 10 {
        mp + 3
    } else {
        mp - 9
    };
    let y: u64 = yoe + era * 400 + if m <= 2 {
        1u64
    } else {
        0u64
    };
    let mut out: Vec<char> = Vec::new();
    push_num(&mut out, y, 4);
    out.push('-');
    push_num(&mut out, m, 2);
    out.push('-');
    push_num(&mut out, d, 2);
    out.push('T');
    push_num(&mut out, secs / 3600, 2);
    out.push(':');
    push_num(&mut out, (secs % 3600) / 60, 2);
    out.push(':');
    push_num(&mut out, secs % 60, 2);
    out.push('Z');
    proof {
        reveal(civil_from_days);
        assert(out@ =~= ts_text(epoch as nat));
    }
    string_from_chars(&out)
}

} // verus!

verus! {

// ── The round trip ──────────────────────────────────────────────────────────

/// The bytes of an ASCII character sequence.
pub open spec fn ascii_bytes(s: Seq<char>) -> Seq<u8> {
    Seq::new(s.len(), |i: int| s[i] as u8)
}

proof fn lemma_dec_props(n: nat)
    ensures
        dec(n).len() >= 1,
        all_digits(ascii_bytes(dec(n))),
        digits_value(ascii_bytes(dec(n))) == n,
        forall|k: nat| k >= 1 && n < pow10(k) ==> dec(n).len() <= k,
    decreases n,
{
    reveal_with_fuel(pow10, 2);
    if n < 10 {
        assert(ascii_bytes(dec(n)) =~= seq![(48 + n) as u8]);
        assert(ascii_bytes(dec(n)).drop_last() =~= Seq::<u8>::empty());
        reveal_with_fuel(digits_value, 2);
    } else {
        lemma_dec_props(n / 10);
        let p = dec(n / 10);
        let c = crate::text::digit_char((n % 10) as int);
        assert(dec(n) == p.push(c));
        assert(ascii_bytes(dec(n)).drop_last() =~= ascii_bytes(p));
        assert(ascii_bytes(dec(n)).last() == (48 + n % 10) as u8);
        assert forall|i: int| 0 <= i < ascii_bytes(dec(n)).len() implies is_digit_byte(
            #[trigger] ascii_bytes(dec(n))[i],
        ) by {
            if i < p.len() {
                assert(ascii_bytes(dec(n))[i] == ascii_bytes(p)[i]);
            }
        }
        assert forall|k: nat| k >= 1 && n < pow10(k) implies dec(n).len() <= k by {
            if k == 1 {
                assert(pow10(1) == 10);
            } else {
                assert(pow10(k) == 10 * pow10((k - 1) as nat));
                assert(n / 10 < pow10((k - 1) as nat)) by (nonlinear_arith)
                    requires
                        n < 10 * pow10((k - 1) as nat),
                {
                }
            }
        }
    }
}

proof fn lemma_zeros_value(k: nat, s: Seq<char>)
    ensures
        digits_value(ascii_bytes(Seq::new(k, |_i: int| '0') + s)) == digits_value(ascii_bytes(s)),
    decreases s.len(), k,
{
    let z = Seq::new(k, |_i: int| '0');
    if s.len() == 0 {
        assert(z + s =~= z);
        if k > 0 {
            let z1 = Seq::new((k - 1) as nat, |_i: int| '0');
            lemma_zeros_value((k - 1) as nat, s);
            assert(ascii_bytes(z).drop_last() =~= ascii_bytes(z1 + s));
            assert(ascii_bytes(z).last() == 48u8);
        } else {
            assert(ascii_bytes(z + s) =~= Seq::<u8>::empty());
        }
    } else {
        lemma_zeros_value(k, s.drop_last());
        assert(ascii_bytes(z + s).drop_last() =~= ascii_bytes(z + s.drop_last()));
        assert(ascii_bytes(s).drop_last() =~= ascii_bytes(s.drop_last()));
        assert(ascii_bytes(z + s).last() == ascii_bytes(s).last());
    }
}

/// A number below `10^w`, zero-padded to `w` digits, reads back as itself.
proof fn lemma_padded_field(n: nat, w: nat)
    requires
        n < pow10(w),
        w >= 1,
    ensures
        zero_pad(dec(n), w).len() == w,
        int_field(ascii_bytes(zero_pad(dec(n), w))) == Some(n as int),
{
    lemma_dec_props(n);
    let d = dec(n);
    let p = zero_pad(d, w);
    if d.len() < w {
        lemma_zeros_value((w - d.len()) as nat, d);
    }
    assert(all_digits(ascii_bytes(p))) by {
        assert forall|i: int| 0 <= i < ascii_bytes(p).len() implies is_digit_byte(
            #[trigger] ascii_bytes(p)[i],
        ) by {
            if d.len() < w && i < w - d.len() {
                assert(p[i] == '0');
            } else if d.len() < w {
                assert(p[i] == d[i - (w - d.len())]);
                assert(ascii_bytes(d)[i - (w - d.len())] == d[i - (w - d.len())] as u8);
            } else {
                assert(ascii_bytes(p)[i] == ascii_bytes(d)[i]);
            }
        }
    }
    assert(ascii_bytes(p)[0] != 43u8 && ascii_bytes(p)[0] != 45u8);
}

/// Civil dates round trip: the date of a day count maps back to the count.
proof fn lemma_civil_round_trip(days: nat)
    requires
        days <= 2932896,
    ensures
        ({
            let (y, m, d) = civil_from_days(days);
            &&& 0 <= y <= 9999
            &&& 1 <= m <= 12
            &&& 1 <= d <= 31
            &&& days_from_civil(y, m, d) == days
        }),
{
    reveal(civil_from_days);
    reveal(days_from_civil);
    let z = days + 719468;
    let era = z / 146097;
    let doe = z - era * 146097;
    assert(0 <= doe < 146097);
    assert(era <= 24);
    lemma_era_day(doe as u32);
    let yoe = (doe - doe / 1460 + doe / 36524 - doe / 146096) / 365;
    let doy = doe - (365 * yoe + yoe / 4 - yoe / 100);
    assert(0 <= yoe <= 399);
    assert(0 <= doy <= 365);
    let mp = (5 * doy + 2) / 153;
    let d = doy - (153 * mp + 2) / 5 + 1;
    assert(0 <= mp <= 11);
    assert(153 * mp <= 5 * doy + 2);
    assert(5 * doy + 2 < 153 * mp + 153);
    assert(1 <= d <= 31);
    let m = if mp < 10 {
        mp + 3
    } else {
        mp - 9
    };
    let y = yoe + era * 400 + if m <= 2 {
        1int
    } else {
        0int
    };
    assert(civil_from_days(days) == (y, m, d));
    if era == 24 && yoe == 399 && m <= 2 {
        assert(doy >= 306);
        assert(false);
    }
    assert(y <= 9999);
    let y2 = if m <= 2 {
        y - 1
    } else {
        y
    };
    assert(y2 == yoe + era * 400);
    assert(y2 / 400 == era);
    assert(tdiv(y2, 400) == era);
    let mshift = if m > 2 {
        m - 3
    } else {
        m + 9
    };
    assert(mshift == mp);
    assert(tdiv(153 * mshift + 2, 5) + d - 1 == doy);
    assert(tdiv(yoe, 4) == yoe / 4);
    assert(tdiv(yoe, 100) == yoe / 100);
    assert(days_from_civil(y, m, d) == era * 146097 + doe - 719468);
}

} // verus!

verus! {

proof fn lemma_piece(pre: Seq<char>, piece: Seq<char>, post: Seq<char>)
    ensures
        ascii_bytes(pre + piece + post).subrange(
            pre.len() as int,
            (pre.len() + piece.len()) as int,
        ) == ascii_bytes(piece),
        (pre + piece + post).len() == pre.len() + piece.len() + post.len(),
{
    assert(ascii_bytes(pre + piece + post).subrange(pre.len() as int, (pre.len() + piece.len()) as int)
        =~= ascii_bytes(piece));
}

proof fn lemma_text_fields(
    pa: Seq<char>,
    pm: Seq<char>,
    pd: Seq<char>,
    ph: Seq<char>,
    pi: Seq<char>,
    ps: Seq<char>,
)
    requires
        pa.len() == 4,
        pm.len() == 2,
        pd.len() == 2,
        ph.len() == 2,
        pi.len() == 2,
        ps.len() == 2,
    ensures
        ({
            let t = pa + seq!['-'] + pm + seq!['-'] + pd + seq!['T'] + ph + seq![':'] + pi + seq![
                ':',
            ] + ps + seq!['Z'];
            let b = ascii_bytes(t);
            &&& field_at(b, 0, 4) == int_field(ascii_bytes(pa))
            &&& field_at(b, 5, 7) == int_field(ascii_bytes(pm))
            &&& field_at(b, 8, 10) == int_field(ascii_bytes(pd))
            &&& field_at(b, 11, 13) == int_field(ascii_bytes(ph))
            &&& field_at(b, 14, 16) == int_field(ascii_bytes(pi))
            &&& field_at(b, 17, 19) == int_field(ascii_bytes(ps))
        }),
{
    let t = pa + seq!['-'] + pm + seq!['-'] + pd + seq!['T'] + ph + seq![':'] + pi + seq![':']
        + ps + seq!['Z'];
    let s1 = seq!['-'] + pm + seq!['-'] + pd + seq!['T'] + ph + seq![':'] + pi + seq![':'] + ps
        + seq!['Z'];
    assert(t =~= Seq::<char>::empty() + pa + s1);
    lemma_piece(Seq::<char>::empty(), pa, s1);
    let a2 = pa + seq!['-'];
    let s2 = seq!['-'] + pd + seq!['T'] + ph + seq![':'] + pi + seq![':'] + ps + seq!['Z'];
    assert(t =~= a2 + pm + s2);
    lemma_piece(a2, pm, s2);
    let a3 = a2 + pm + seq!['-'];
    let s3 = seq!['T'] + ph + seq![':'] + pi + seq![':'] + ps + seq!['Z'];
    assert(t =~= a3 + pd + s3);
    lemma_piece(a3, pd, s3);
    let a4 = a3 + pd + seq!['T'];
    let s4 = seq![':'] + pi + seq![':'] + ps + seq!['Z'];
    assert(t =~= a4 + ph + s4);
    lemma_piece(a4, ph, s4);
    let a5 = a4 + ph + seq![':'];
    let s5 = seq![':'] + ps + seq!['Z'];
    assert(t =~= a5 + pi + s5);
    lemma_piece(a5, pi, s5);
    let a6 = a5 + pi + seq![':'];
    let s6 = seq!['Z'];
    assert(t =~= a6 + ps + s6);
    lemma_piece(a6, ps, s6);
}

/// Formatting an instant and reading the text back gives the same epoch
/// seconds, for every instant before the year 10000 (whose year still
/// fits the four-digit field).
pub proof fn law_format_parse_round_trip(epoch: nat)
    requires
        epoch < 253402300800,
    ensures
        ts_epoch(ascii_bytes(ts_text(epoch))) == Some(epoch as int),
{
    let days = epoch / 86400;
    let secs = epoch % 86400;
    lemma_civil_round_trip(days);
    let (y, m, d) = civil_from_days(days);
    let h = secs / 3600;
    let mi = (secs % 3600) / 60;
    let s = secs % 60;
    reveal_with_fuel(pow10, 5);
    lemma_padded_field(y as nat, 4);
    lemma_padded_field(m as nat, 2);
    lemma_padded_field(d as nat, 2);
    lemma_padded_field(h as nat, 2);
    lemma_padded_field(mi as nat, 2);
    lemma_padded_field(s as nat, 2);
    let pa = zero_pad(dec(y as nat), 4);
    lemma_text_fields(pa, two(m), two(d), two(h as int), two(mi as int), two(s as int));
    assert(h * 3600 + mi * 60 + s == secs);
    assert(days * 86400 + secs == epoch);
}


/// Whether every character of a text is an ASCII digit.
pub open spec fn digit_chars(s: Seq<char>) -> bool {
    forall|i: int| 0 <= i < s.len() ==> '0' <= #[trigger] s[i] && s[i] <= '9'
}

proof fn lemma_dec_digit_chars(n: nat)
    ensures
        digit_chars(dec(n)),
    decreases n,
{
    if n >= 10 {
        lemma_dec_digit_chars(n / 10);
        let d = dec(n / 10);
        assert forall|i: int| 0 <= i < dec(n).len() implies '0' <= #[trigger] dec(n)[i] && dec(n)[i] <= '9' by {
            if i < d.len() {
                assert(dec(n)[i] == d[i]);
            }
        }
    }
}

proof fn lemma_zero_pad_digit_chars(s: Seq<char>, width: nat)
    requires
        digit_chars(s),
    ensures
        digit_chars(zero_pad(s, width)),
{
    if s.len() < width {
        let p = Seq::new((width - s.len()) as nat, |_i: int| '0');
        assert forall|i: int| 0 <= i < (p + s).len() implies '0' <= #[trigger] (p + s)[i] && (p + s)[i] <= '9' by {
            if i >= p.len() {
                assert((p + s)[i] == s[i - p.len()]);
            }
        }
    }
}

/// A formatted timestamp is ASCII text: digits and `-`, `T`, `:`, `Z`.
proof fn lemma_ts_text_ascii(epoch: nat)
    ensures
        vstd::utf8::is_ascii_chars(ts_text(epoch)),
        ascii_bytes(ts_text(epoch)) == Seq::new(ts_text(epoch).len(), |i: int| ts_text(epoch)[i] as u8),
{
    let (y, m, d) = civil_from_days(epoch / 86400);
    let secs = epoch % 86400;
    lemma_dec_digit_chars(y as nat);
    lemma_zero_pad_digit_chars(dec(y as nat), 4);
    lemma_dec_digit_chars(m as nat);
    lemma_zero_pad_digit_chars(dec(m as nat), 2);
    lemma_dec_digit_chars(d as nat);
    lemma_zero_pad_digit_chars(dec(d as nat), 2);
    let h = (secs / 3600) as int;
    let mi = ((secs % 3600) / 60) as int;
    let sc = (secs % 60) as int;
    lemma_dec_digit_chars(h as nat);
    lemma_zero_pad_digit_chars(dec(h as nat), 2);
    lemma_dec_digit_chars(mi as nat);
    lemma_zero_pad_digit_chars(dec(mi as nat), 2);
    lemma_dec_digit_chars(sc as nat);
    lemma_zero_pad_digit_chars(dec(sc as nat), 2);
    let parts = seq![
        zero_pad(dec(y as nat), 4), seq!['-'], two(m), seq!['-'], two(d), seq!['T'], two(h), seq![':'],
        two(mi), seq![':'], two(sc), seq!['Z'],
    ];
    let t = ts_text(epoch);
    assert forall|i: int| 0 <= i < t.len() implies '\0' <= #[trigger] t[i] <= '\u{7f}' by {
        let t0 = zero_pad(dec(y as nat), 4);
        let t1 = t0 + seq!['-'];
        let t2 = t1 + two(m);
        let t3 = t2 + seq!['-'];
        let t4 = t3 + two(d);
        let t5 = t4 + seq!['T'];
        let t6 = t5 + two(h);
        let t7 = t6 + seq![':'];
        let t8 = t7 + two(mi);
        let t9 = t8 + seq![':'];
        let t10 = t9 + two(sc);
        assert(t == t10 + seq!['Z']);
        if i >= t10.len() {
        } else if i >= t9.len() {
            assert(t[i] == two(sc)[i - t9.len()]);
        } else if i >= t8.len() {
            assert(t[i] == t9[i]);
        } else if i >= t7.len() {
            assert(t[i] == t9[i] && t9[i] == t8[i] && t8[i] == two(mi)[i - t7.len()]);
        } else if i >= t6.len() {
            assert(t[i] == t9[i] && t9[i] == t8[i] && t8[i] == t7[i]);
        } else if i >= t5.len() {
            assert(t[i] == t9[i] && t9[i] == t8[i] && t8[i] == t7[i] && t7[i] == t6[i] && t6[i] == two(h)[i - t5.len()]);
        } else if i >= t4.len() {
            assert(t[i] == t9[i] && t9[i] == t8[i] && t8[i] == t7[i] && t7[i] == t6[i] && t6[i] == t5[i]);
        } else if i >= t3.len() {
            assert(t[i] == t9[i] && t9[i] == t8[i] && t8[i] == t7[i] && t7[i] == t6[i] && t6[i] == t5[i] && t5[i] == t4[i] && t4[i] == two(d)[i - t3.len()]);
        } else if i >= t2.len() {
            assert(t[i] == t9[i] && t9[i] == t8[i] && t8[i] == t7[i] && t7[i] == t6[i] && t6[i] == t5[i] && t5[i] == t4[i] && t4[i] == t3[i]);
        } else if i >= t1.len() {
            assert(t[i] == t9[i] && t9[i] == t8[i] && t8[i] == t7[i] && t7[i] == t6[i] && t6[i] == t5[i] && t5[i] == t4[i] && t4[i] == t3[i] && t3[i] == t2[i] && t2[i] == two(m)[i - t1.len()]);
        } else if i >= t0.len() {
            assert(t[i] == t9[i] && t9[i] == t8[i] && t8[i] == t7[i] && t7[i] == t6[i] && t6[i] == t5[i] && t5[i] == t4[i] && t4[i] == t3[i] && t3[i] == t2[i] && t2[i] == t1[i]);
        } else {
            assert(t[i] == t9[i] && t9[i] == t8[i] && t8[i] == t7[i] && t7[i] == t6[i] && t6[i] == t5[i] && t5[i] == t4[i] && t4[i] == t3[i] && t3[i] == t2[i] && t2[i] == t1[i] && t1[i] == t0[i]);
        }
    }
    assert(ascii_bytes(t) =~= Seq::new(t.len(), |i: int| t[i] as u8));
}

/// Formatting an instant and parsing the text back gives the same epoch
/// seconds, for every instant before the year 10000: the text
/// [`format_ts`] writes is ASCII, so the bytes [`parse_ts`] reads are its
/// characters one for one.
pub proof fn law_parse_reads_back_what_format_wrote(s: &str, epoch: nat)
    requires
        epoch < 253402300800,
        s@ == ts_text(epoch),
    ensures
        ts_epoch(s.spec_bytes()) == Some(epoch as int),
{
    lemma_ts_text_ascii(epoch);
    vstd::string::is_ascii_spec_bytes(s);
    assert(s.spec_bytes() == ascii_bytes(ts_text(epoch)));
    law_format_parse_round_trip(epoch);
}

} // verus!
