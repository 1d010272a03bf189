//! The poll cursor of a polling source, and what one poll lets through.
//!
//! A polling source numbers its records by position. The cursor is the
//! greatest position seen so far. A record is handed on only if its position
//! lies beyond the cursor, its sender passes the allow-list and its text is
//! not blank; the cursor moves to every position seen, handed on or not.

use crate::channels::allow_list::{is_allowed, permits};
use crate::text::{blank, is_blank, views};
use vstd::prelude::*;

verus! {

/// One record of a polling source.
#[derive(Debug, Clone)]
pub struct Record {
    pub position: i64,
    pub sender: String,
    pub text: String,
}

/// What a `Record` holds, as mathematical values.
pub ghost struct RecordView {
    pub position: i64,
    pub sender: Seq<char>,
    pub text: Seq<char>,
}

impl View for Record {
    type V = RecordView;

    open spec fn view(&self) -> RecordView {
        RecordView { position: self.position, sender: self.sender@, text: self.text@ }
    }
}

impl Record {
    /// A copy of the record.
    pub fn duplicate(&self) -> (r: Record)
        ensures
            r@ == self@,
    {
        Record { position: self.position, sender: self.sender.clone(), text: self.text.clone() }
    }
}

/// The views of a list of records.
pub open spec fn record_views(records: Seq<Record>) -> Seq<RecordView> {
    records.map_values(|r: Record| r@)
}

/// The later of two positions.
pub open spec fn later(a: i64, b: i64) -> i64 {
    if a >= b {
        a
    } else {
        b
    }
}

/// Whether a record is handed on when the cursor stands at `cursor`.
pub open spec fn admits(list: Seq<Seq<char>>, cursor: i64, record: RecordView) -> bool {
    &&& record.position > cursor
    &&& permits(list, record.sender)
    &&& !is_blank(record.text)
}

/// Where the cursor stands after the records were seen in order.
pub open spec fn cursor_after(cursor: i64, records: Seq<RecordView>) -> i64
    decreases records.len(),
{
    if records.len() == 0 {
        cursor
    } else {
        later(cursor_after(cursor, records.drop_last()), records.last().position)
    }
}

/// The records handed on, in order, when `records` are seen in order from
/// `cursor`.
pub open spec fn accepted(list: Seq<Seq<char>>, cursor: i64, records: Seq<RecordView>) -> Seq<
    RecordView,
>
    decreases records.len(),
{
    if records.len() == 0 {
        Seq::empty()
    } else {
        let before = accepted(list, cursor, records.drop_last());
        if admits(list, cursor_after(cursor, records.drop_last()), records.last()) {
            before.push(records.last())
        } else {
            before
        }
    }
}

/// The records that a fetch beyond `cursor` selects from a store.
pub open spec fn newer_than(store: Seq<RecordView>, cursor: i64) -> Seq<RecordView> {
    store.filter(|r: RecordView| r.position > cursor)
}

/// Positions rise strictly along the sequence.
pub open spec fn ascending(records: Seq<RecordView>) -> bool {
    forall|i: int, j: int|
        0 <= i < j < records.len() ==> (#[trigger] records[i]).position < (
        #[trigger] records[j]).position
}

/// The greatest position seen by a polling source. It never moves back.
#[derive(Debug)]
pub struct PollCursor {
    position: i64,
}

impl View for PollCursor {
    type V = i64;

    closed spec fn view(&self) -> i64 {
        self.position
    }
}

impl PollCursor {
    /// The cursor at the start of a listen loop: the greatest position that
    /// the source holds, or 0 if that could not be found out.
    pub fn seed(max_position: Option<i64>) -> (cursor: PollCursor)
        ensures
            cursor@ == match max_position {
                Some(m) => m,
                None => 0,
            },
    {
        match max_position {
            Some(m) => PollCursor { position: m },
            None => PollCursor { position: 0 },
        }
    }

    /// Where the cursor stands.
    pub fn position(&self) -> (p: i64)
        ensures
            p == self@,
    {
        self.position
    }

    /// Moves the cursor to `position` if that lies beyond it, and says
    /// whether it did.
    pub fn advance(&mut self, position: i64) -> (moved: bool)
        ensures
            final(self)@ == later(old(self)@, position),
            moved == (position > old(self)@),
    {
        if position > self.position {
            self.position = position;
            true
        } else {
            false
        }
    }
}

/// Sees one record: moves the cursor to its position and says whether the
/// record is handed on.
pub fn accept(allow_list: &Vec<String>, cursor: &mut PollCursor, record: &Record) -> (emit: bool)
    ensures
        final(cursor)@ == later(old(cursor)@, record.position),
        emit == admits(views(allow_list@), old(cursor)@, record@),
{
    if !cursor.advance(record.position) {
        return false;
    }
    if !is_allowed(allow_list, record.sender.as_str()) {
        return false;
    }
    !blank(record.text.as_str())
}

/// Sees the records of one poll in order: moves the cursor past them and
/// returns those that are handed on.
pub fn accept_batch(allow_list: &Vec<String>, cursor: &mut PollCursor, records: &Vec<Record>) -> (out:
    Vec<Record>)
    ensures
        final(cursor)@ == cursor_after(old(cursor)@, record_views(records@)),
        record_views(out@) == accepted(views(allow_list@), old(cursor)@, record_views(records@)),
{
    let ghost list = views(allow_list@);
    let ghost all = record_views(records@);
    let ghost start = cursor@;
    let mut out: Vec<Record> = Vec::new();
    let mut i: usize = 0;
    assert(record_views(out@) == Seq::<RecordView>::empty());
    while i < records.len()
        invariant
            i <= records.len(),
            list == views(allow_list@),
            all == record_views(records@),
            cursor@ == cursor_after(start, all.take(i as int)),
            record_views(out@) == accepted(list, start, all.take(i as int)),
        decreases records.len() - i,
    {
        let ghost seen = all.take(i as int);
        let ghost next = all.take(i + 1);
        assert(next.drop_last() == seen);
        assert(next.last() == records@[i as int]@);
        let ghost before = out@;
        if accept(allow_list, cursor, &records[i]) {
            out.push(records[i].duplicate());
            assert(record_views(out@) == record_views(before).push(records@[i as int]@));
        }
        i = i + 1;
    }
    assert(all.take(records.len() as int) == all);
    out
}

/// The cursor never moves back, it stands at or beyond every position seen,
/// and where it moved it stands at a position that was seen.
pub proof fn lemma_cursor_after(cursor: i64, records: Seq<RecordView>)
    ensures
        cursor_after(cursor, records) >= cursor,
        forall|k: int|
            0 <= k < records.len() ==> (#[trigger] records[k]).position <= cursor_after(
                cursor,
                records,
            ),
        cursor_after(cursor, records) == cursor || exists|k: int|
            0 <= k < records.len() && (#[trigger] records[k]).position == cursor_after(
                cursor,
                records,
            ),
    decreases records.len(),
{
    if records.len() > 0 {
        let front = records.drop_last();
        lemma_cursor_after(cursor, front);
        assert forall|k: int| 0 <= k < records.len() implies (#[trigger] records[k]).position
            <= cursor_after(cursor, records) by {
            if k < front.len() {
                assert(front[k] == records[k]);
            }
        }
        let end = cursor_after(cursor, records);
        if end != cursor {
            if end == records.last().position {
                assert(records[records.len() - 1].position == end);
            } else {
                let k = choose|k: int|
                    0 <= k < front.len() && (#[trigger] front[k]).position == cursor_after(
                        cursor,
                        front,
                    );
                assert(records[k] == front[k]);
            }
        }
    }
}

/// Every record handed on was among those seen, lies beyond the cursor from
/// which the poll began, comes from a sender that the allow-list lets
/// through, and has a text that is not blank.
pub proof fn lemma_accepted_sound(list: Seq<Seq<char>>, cursor: i64, records: Seq<RecordView>)
    ensures
        accepted(list, cursor, records).len() <= records.len(),
        forall|k: int|
            0 <= k < accepted(list, cursor, records).len() ==> {
                let r = #[trigger] accepted(list, cursor, records)[k];
                &&& records.contains(r)
                &&& r.position > cursor
                &&& r.position <= cursor_after(cursor, records)
                &&& permits(list, r.sender)
                &&& !is_blank(r.text)
            },
    decreases records.len(),
{
    if records.len() > 0 {
        let front = records.drop_last();
        lemma_accepted_sound(list, cursor, front);
        lemma_cursor_after(cursor, front);
        let out = accepted(list, cursor, records);
        let before = accepted(list, cursor, front);
        assert forall|k: int| 0 <= k < out.len() implies {
            let r = #[trigger] out[k];
            &&& records.contains(r)
            &&& r.position > cursor
            &&& r.position <= cursor_after(cursor, records)
            &&& permits(list, r.sender)
            &&& !is_blank(r.text)
        } by {
            if k < before.len() {
                assert(out[k] == before[k]);
                let j = choose|j: int| 0 <= j < front.len() && front[j] == before[k];
                assert(records[j] == before[k]);
            } else {
                assert(out[k] == records[records.len() - 1]);
            }
        }
    }
}

/// The positions of the records handed on rise strictly: none is handed on
/// twice, and they leave in the order of their positions.
pub proof fn lemma_accepted_ascending(list: Seq<Seq<char>>, cursor: i64, records: Seq<RecordView>)
    ensures
        ascending(accepted(list, cursor, records)),
    decreases records.len(),
{
    if records.len() > 0 {
        let front = records.drop_last();
        lemma_accepted_ascending(list, cursor, front);
        lemma_accepted_sound(list, cursor, front);
        let out = accepted(list, cursor, records);
        let before = accepted(list, cursor, front);
        assert forall|i: int, j: int| 0 <= i < j < out.len() implies (#[trigger] out[i]).position
            < (#[trigger] out[j]).position by {
            if j < before.len() {
                assert(out[i] == before[i]);
                assert(out[j] == before[j]);
            } else {
                assert(out[i] == before[i]);
            }
        }
    }
}

/// Seeing two batches one after the other is seeing their concatenation: the
/// second poll begins where the first left the cursor.
pub proof fn lemma_polls_compose(
    list: Seq<Seq<char>>,
    cursor: i64,
    first: Seq<RecordView>,
    second: Seq<RecordView>,
)
    ensures
        cursor_after(cursor, first + second) == cursor_after(cursor_after(cursor, first), second),
        accepted(list, cursor, first + second) == accepted(list, cursor, first) + accepted(
            list,
            cursor_after(cursor, first),
            second,
        ),
    decreases second.len(),
{
    if second.len() == 0 {
        assert(first + second == first);
        assert(accepted(list, cursor, first) + Seq::<RecordView>::empty() == accepted(
            list,
            cursor,
            first,
        ));
    } else {
        let both = first + second;
        assert(both.drop_last() == first + second.drop_last());
        assert(both.last() == second.last());
        lemma_polls_compose(list, cursor, first, second.drop_last());
        let a = accepted(list, cursor, first);
        let b = accepted(list, cursor_after(cursor, first), second.drop_last());
        assert((a + b).push(second.last()) == a + b.push(second.last()));
    }
}

/// A poll that sees again what an earlier poll saw hands nothing on and
/// leaves the cursor where it stands, and a fetch beyond the cursor selects
/// none of those records.
pub proof fn lemma_repoll_is_idle(list: Seq<Seq<char>>, cursor: i64, records: Seq<RecordView>)
    ensures
        cursor_after(cursor_after(cursor, records), records) == cursor_after(cursor, records),
        accepted(list, cursor_after(cursor, records), records).len() == 0,
        newer_than(records, cursor_after(cursor, records)).len() == 0,
{
    let end = cursor_after(cursor, records);
    lemma_cursor_after(cursor, records);
    lemma_idle_below(list, end, records);
}

/// Records at or below the cursor move nothing and are not handed on.
pub proof fn lemma_idle_below(list: Seq<Seq<char>>, cursor: i64, records: Seq<RecordView>)
    requires
        forall|k: int| 0 <= k < records.len() ==> (#[trigger] records[k]).position <= cursor,
    ensures
        cursor_after(cursor, records) == cursor,
        accepted(list, cursor, records).len() == 0,
        newer_than(records, cursor).len() == 0,
    decreases records.len(),
{
    reveal(Seq::filter);
    if records.len() > 0 {
        let front = records.drop_last();
        assert forall|k: int| 0 <= k < front.len() implies (#[trigger] front[k]).position
            <= cursor by {
            assert(front[k] == records[k]);
        }
        lemma_idle_below(list, cursor, front);
        assert(records.last() == records[records.len() - 1]);
    }
}

/// When the positions fetched rise strictly and all lie beyond the cursor,
/// the cursor ends at the last of them and no record is passed over: what is
/// handed on are the records whose sender is let through and whose text is
/// not blank.
pub proof fn lemma_ascending_poll(list: Seq<Seq<char>>, cursor: i64, records: Seq<RecordView>)
    requires
        ascending(records),
        forall|k: int| 0 <= k < records.len() ==> (#[trigger] records[k]).position > cursor,
    ensures
        records.len() > 0 ==> cursor_after(cursor, records) == records.last().position,
        accepted(list, cursor, records) == records.filter(
            |r: RecordView| permits(list, r.sender) && !is_blank(r.text),
        ),
    decreases records.len(),
{
    reveal(Seq::filter);
    if records.len() > 0 {
        let front = records.drop_last();
        assert forall|k: int| 0 <= k < front.len() implies (#[trigger] front[k]).position
            > cursor by {
            assert(front[k] == records[k]);
        }
        assert(ascending(front)) by {
            assert forall|i: int, j: int| 0 <= i < j < front.len() implies (
            #[trigger] front[i]).position < (#[trigger] front[j]).position by {
                assert(front[i] == records[i]);
                assert(front[j] == records[j]);
            }
        }
        lemma_ascending_poll(list, cursor, front);
        assert(records.last() == records[records.len() - 1]);
        let last = records[records.len() - 1];
        if front.len() > 0 {
            let prev = records[records.len() - 2];
            assert(front.last() == prev);
            assert(prev.position < last.position);
            assert(cursor_after(cursor, front) == prev.position);
        } else {
            assert(cursor_after(cursor, front) == cursor);
        }
        assert(cursor_after(cursor, records) == last.position);
    }
}

/// When a poll returns records whose positions rise strictly and all lie
/// beyond the cursor, the cursor ends at the last position; and a poll of the
/// same records from there is idle: a fetch beyond the cursor selects none of
/// them, nothing is handed on, and the cursor stays.
pub proof fn lemma_cursor_monotonicity(list: Seq<Seq<char>>, cursor: i64, records: Seq<RecordView>)
    requires
        ascending(records),
        forall|k: int| 0 <= k < records.len() ==> (#[trigger] records[k]).position > cursor,
    ensures
        records.len() > 0 ==> cursor_after(cursor, records) == records.last().position,
        newer_than(records, cursor_after(cursor, records)).len() == 0,
        accepted(list, cursor_after(cursor, records), records).len() == 0,
        cursor_after(cursor_after(cursor, records), records) == cursor_after(cursor, records),
{
    lemma_ascending_poll(list, cursor, records);
    lemma_repoll_is_idle(list, cursor, records);
}

/// A cursor seeded with the greatest position `m` that the store held keeps
/// every record at or below `m` back, whatever a poll returns.
pub proof fn lemma_history_is_not_replayed(
    list: Seq<Seq<char>>,
    m: i64,
    records: Seq<RecordView>,
    k: int,
)
    requires
        0 <= k < accepted(list, m, records).len(),
    ensures
        accepted(list, m, records)[k].position > m,
{
    lemma_accepted_sound(list, m, records);
}

/// No record with an empty or blank text is handed on, whoever sent it.
pub proof fn lemma_blank_is_dropped(
    list: Seq<Seq<char>>,
    cursor: i64,
    records: Seq<RecordView>,
    k: int,
)
    requires
        0 <= k < accepted(list, cursor, records).len(),
    ensures
        !is_blank(accepted(list, cursor, records)[k].text),
        accepted(list, cursor, records)[k].text.len() > 0,
{
    lemma_accepted_sound(list, cursor, records);
}

} // verus!
