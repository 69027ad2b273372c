//! Reading a ledger back: which lines are events, which are bad (counted
//! and surfaced by their line number, never silently dropped), the events
//! put in sequence order, and where a resumed writer's numbering goes on.
use vstd::prelude::*;

use crate::ledger::event::Event;

verus! {

/// How one line of a ledger file read.
pub enum LineRead {
    /// A blank line, skipped.
    Blank,
    /// A line that parsed as an event.
    Parsed(Event),
    /// A line that did not.
    Bad,
}

/// One parsed ledger file.
pub struct LedgerFile {
    /// Its events, in sequence order.
    pub events: Vec<Event>,
    /// The 1-based numbers of its lines that failed to parse, in file order.
    pub bad_lines: Vec<u64>,
}

/// The 1-based numbers of the bad lines among `reads`, in file order.
pub open spec fn bad_numbers(reads: Seq<LineRead>) -> Seq<u64>
    decreases reads.len(),
{
    if reads.len() == 0 {
        Seq::empty()
    } else {
        bad_numbers(reads.drop_last()) + if reads.last() is Bad {
            seq![reads.len() as u64]
        } else {
            Seq::empty()
        }
    }
}

/// The events among `reads`, in file order.
pub open spec fn parsed_events(reads: Seq<LineRead>) -> Seq<Event>
    decreases reads.len(),
{
    if reads.len() == 0 {
        Seq::empty()
    } else {
        parsed_events(reads.drop_last()) + match reads.last() {
            LineRead::Parsed(e) => seq![e],
            _ => Seq::empty(),
        }
    }
}

/// Where an event with sequence number `seq` goes in `s`, looking from
/// `i`: before the first event with a greater number, else at the end.
pub open spec fn place_from(s: Seq<Event>, seq: u64, i: int) -> int
    decreases s.len() - i,
{
    if i >= s.len() {
        s.len() as int
    } else if s[i].seq > seq {
        i
    } else {
        place_from(s, seq, i + 1)
    }
}

/// The events of `s` in sequence order, those with equal numbers in the
/// order they came (a stable sort by sequence number): each event goes
/// after every earlier one whose number is not greater.
pub open spec fn in_sequence(s: Seq<Event>) -> Seq<Event>
    decreases s.len(),
{
    if s.len() == 0 {
        Seq::empty()
    } else {
        let sorted = in_sequence(s.drop_last());
        sorted.insert(place_from(sorted, s.last().seq, 0), s.last())
    }
}

/// Whether events stand in non-decreasing sequence order.
pub open spec fn sequence_ordered(s: Seq<Event>) -> bool {
    forall|i: int, j: int| 0 <= i < j < s.len() ==> #[trigger] s[i].seq <= #[trigger] s[j].seq
}

proof fn lemma_place_from(s: Seq<Event>, seq: u64, i: int)
    requires
        0 <= i <= s.len(),
        sequence_ordered(s),
        forall|k: int| 0 <= k < i ==> s[k].seq <= seq,
    ensures
        i <= place_from(s, seq, i) <= s.len(),
        forall|k: int| 0 <= k < place_from(s, seq, i) ==> s[k].seq <= seq,
        forall|k: int| place_from(s, seq, i) <= k < s.len() ==> s[k].seq > seq,
    decreases s.len() - i,
{
    if i < s.len() {
        if s[i].seq > seq {
            assert forall|k: int| i <= k < s.len() implies s[k].seq > seq by {
                if k > i {
                    assert(s[i].seq <= s[k].seq);
                }
            }
        } else {
            lemma_place_from(s, seq, i + 1);
        }
    }
}

/// Inserting at its place keeps events in sequence order.
proof fn lemma_in_sequence_ordered(s: Seq<Event>)
    ensures
        sequence_ordered(in_sequence(s)),
        in_sequence(s).len() == s.len(),
    decreases s.len(),
{
    if s.len() > 0 {
        lemma_in_sequence_ordered(s.drop_last());
        let sorted = in_sequence(s.drop_last());
        let e = s.last();
        lemma_place_from(sorted, e.seq, 0);
        let k = place_from(sorted, e.seq, 0);
        let r = sorted.insert(k, e);
        assert forall|i: int, j: int| 0 <= i < j < r.len() implies #[trigger] r[i].seq <= #[trigger] r[j].seq by {
            if j < k {
                assert(r[i] == sorted[i] && r[j] == sorted[j]);
            } else if j == k {
                assert(r[i] == sorted[i]);
            } else if i < k {
                assert(r[i] == sorted[i] && r[j] == sorted[j - 1]);
            } else if i == k {
                assert(r[j] == sorted[j - 1]);
            } else {
                assert(r[i] == sorted[i - 1] && r[j] == sorted[j - 1]);
            }
        }
    }
}

/// A loaded ledger's events stand in sequence order, all of the file's
/// events and no others: however the lines came, the events are sorted by
/// their sequence numbers, equal numbers in file order.
pub proof fn law_loaded_events_are_in_sequence_order(reads: Seq<LineRead>)
    ensures
        sequence_ordered(in_sequence(parsed_events(reads))),
        in_sequence(parsed_events(reads)).len() == parsed_events(reads).len(),
{
    lemma_in_sequence_ordered(parsed_events(reads));
}

/// Every bad line is surfaced by its 1-based number, in file order, and
/// only bad lines are (for a file of no more lines than a `u64` counts).
pub proof fn law_bad_lines_are_numbered(reads: Seq<LineRead>)
    requires
        reads.len() <= u64::MAX,
    ensures
        bad_numbers(reads).len() <= reads.len(),
        forall|k: int|
            0 <= k < bad_numbers(reads).len() ==> 1 <= #[trigger] bad_numbers(reads)[k] <= reads.len()
                && reads[bad_numbers(reads)[k] - 1] is Bad,
    decreases reads.len(),
{
    if reads.len() > 0 {
        law_bad_lines_are_numbered(reads.drop_last());
        let b0 = bad_numbers(reads.drop_last());
        assert forall|k: int| 0 <= k < bad_numbers(reads).len() implies 1 <= #[trigger] bad_numbers(reads)[k]
            <= reads.len() && reads[bad_numbers(reads)[k] - 1] is Bad by {
            if k < b0.len() {
                assert(bad_numbers(reads)[k] == b0[k]);
                assert(reads.drop_last()[b0[k] - 1] == reads[b0[k] - 1]);
            } else {
                assert(reads.last() is Bad);
                assert(bad_numbers(reads)[k] == reads.len() as u64);
                assert(reads[reads.len() - 1] == reads.last());
            }
        }
    }
}

/// The ledger file that `reads`, its lines in order, make: the events in
/// sequence order and the bad lines by number.
pub fn collect_ledger(reads: Vec<LineRead>) -> (r: LedgerFile)
    ensures
        r.events@ == in_sequence(parsed_events(reads@)),
        r.bad_lines@ == bad_numbers(reads@),
{
    let ghost all = reads@;
    let n = reads.len();
    let mut rest = reads;
    let mut events: Vec<Event> = Vec::new();
    let mut bad: Vec<u64> = Vec::new();
    let mut i: usize = 0;
    while i < n
        invariant
            i <= n,
            n == all.len(),
            rest@ == all.skip(i as int),
            events@ == in_sequence(parsed_events(all.take(i as int))),
            bad@ == bad_numbers(all.take(i as int)),
        decreases n - i,
    {
        proof {
            assert(all.take(i + 1).drop_last() =~= all.take(i as int));
            assert(all.take(i + 1).last() == all[i as int]);
            assert(rest@[0] == all[i as int]);
        }
        let line = rest.remove(0);
        let ghost p = parsed_events(all.take(i as int));
        proof {
            assert(rest@ =~= all.skip(i + 1));
            assert(bad_numbers(all.take(i + 1)) == bad_numbers(all.take(i as int)) + if all[i as int] is Bad {
                seq![(i + 1) as u64]
            } else {
                Seq::<u64>::empty()
            });
            assert(parsed_events(all.take(i + 1)) == p + match all[i as int] {
                LineRead::Parsed(e) => seq![e],
                _ => Seq::<Event>::empty(),
            });
        }
        match line {
            LineRead::Blank => {
                proof {
                    assert(p + Seq::<Event>::empty() =~= p);
                    assert(bad_numbers(all.take(i as int)) + Seq::<u64>::empty() =~= bad_numbers(all.take(i as int)));
                }
            },
            LineRead::Bad => {
                bad.push((i as u64) + 1);
                proof {
                    assert(p + Seq::<Event>::empty() =~= p);
                }
            },
            LineRead::Parsed(e) => {
                let ghost sorted = events@;
                let mut k: usize = 0;
                while k < events.len() && events[k].seq <= e.seq
                    invariant
                        k <= events@.len(),
                        events@ == sorted,
                        place_from(sorted, e.seq, 0) == place_from(sorted, e.seq, k as int),
                    decreases events@.len() - k,
                {
                    k = k + 1;
                }
                proof {
                    if k < sorted.len() {
                        assert(sorted[k as int].seq > e.seq);
                    }
                    assert(place_from(sorted, e.seq, k as int) == k);
                    assert((p + seq![e]).drop_last() =~= p);
                    assert((p + seq![e]).last() == e);
                    assert(bad_numbers(all.take(i as int)) + Seq::<u64>::empty() =~= bad_numbers(all.take(i as int)));
                }
                events.insert(k, e);
            },
        }
        i = i + 1;
    }
    proof {
        assert(all.take(n as int) =~= all);
    }
    LedgerFile { events, bad_lines: bad }
}

/// Where a resumed writer's numbering stands: the highest sequence number
/// among the ledger's events, or 0 for none; the next append takes the
/// number after it.
pub open spec fn highest_seq(s: Seq<Event>) -> u64
    decreases s.len(),
{
    if s.len() == 0 {
        0
    } else {
        let h = highest_seq(s.drop_last());
        if s.last().seq > h {
            s.last().seq
        } else {
            h
        }
    }
}

/// The highest sequence number among `events`, or 0 for none.
pub fn resumed_seq(events: &Vec<Event>) -> (r: u64)
    ensures
        r == highest_seq(events@),
{
    let mut h: u64 = 0;
    let mut i: usize = 0;
    while i < events.len()
        invariant
            i <= events@.len(),
            h == highest_seq(events@.take(i as int)),
        decreases events@.len() - i,
    {
        proof {
            assert(events@.take(i + 1).drop_last() =~= events@.take(i as int));
        }
        if events[i].seq > h {
            h = events[i].seq;
        }
        i = i + 1;
    }
    proof {
        assert(events@.take(events@.len() as int) =~= events@);
    }
    h
}

/// Sequence numbers go on from the highest: a resumed writer's number is
/// at least every event's, and is one of them unless there are none.
pub proof fn law_numbering_continues_from_the_highest(s: Seq<Event>)
    ensures
        forall|k: int| 0 <= k < s.len() ==> (#[trigger] s[k]).seq <= highest_seq(s),
        s.len() == 0 ==> highest_seq(s) == 0,
        s.len() > 0 ==> exists|k: int| 0 <= k < s.len() && (#[trigger] s[k]).seq == highest_seq(s),
    decreases s.len(),
{
    if s.len() > 0 {
        law_numbering_continues_from_the_highest(s.drop_last());
        let d = s.drop_last();
        assert forall|k: int| 0 <= k < s.len() implies (#[trigger] s[k]).seq <= highest_seq(s) by {
            if k < d.len() {
                assert(s[k] == d[k]);
            }
        }
        if s.last().seq > highest_seq(d) || d.len() == 0 {
            assert(s[s.len() - 1].seq == s.last().seq);
            if d.len() == 0 && !(s.last().seq > highest_seq(d)) {
                assert(highest_seq(s) == 0);
                assert(s.last().seq == 0);
            }
        } else {
            let k = choose|k: int| 0 <= k < d.len() && (#[trigger] d[k]).seq == highest_seq(d);
            assert(s[k] == d[k]);
        }
    }
}

} // verus!
