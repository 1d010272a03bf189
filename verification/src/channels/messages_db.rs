//! The Messages database as the query tool shows it: the queries to run, and
//! the grammar of what comes back.
//!
//! The tool prints one record per line, its fields parted by `|`: position,
//! sender, text. The text is the rest of the line and may hold `|` itself. A
//! line that does not have three fields, or whose first field is no integer,
//! is no record, and an output with such a line is malformed: nothing is read
//! from it.

use crate::channels::cursor::{Record, RecordView, record_views};
use crate::decimal::{decimal, parse_i64, parse_i64_chars, parse_i64_text, push_decimal};
use crate::text::{chars_of, text_of, trim, trimmed};
use vstd::prelude::*;
use vstd::string::StringExecFns;

verus! {

/// The query for the greatest position among the messages received.
pub open spec fn max_rowid_query_text() -> Seq<char> {
    "SELECT MAX(ROWID) FROM message WHERE is_from_me = 0;"@
}

/// The query for the messages received beyond a position, up to where the
/// position is written.
pub open spec fn fetch_query_head() -> Seq<char> {
    "SELECT m.ROWID, h.id, m.text FROM message m JOIN handle h ON m.handle_id = h.ROWID WHERE m.ROWID > "@
}

/// The rest of that query: received messages with a text, by rising
/// position, twenty at most.
pub open spec fn fetch_query_tail() -> Seq<char> {
    " AND m.is_from_me = 0 AND m.text IS NOT NULL ORDER BY m.ROWID ASC LIMIT 20;"@
}

/// The query for the messages received beyond `since`.
pub open spec fn fetch_query_text(since: i64) -> Seq<char> {
    fetch_query_head() + decimal(since as int) + fetch_query_tail()
}

/// The first index at or after `from` where `s` holds `c`; the length of `s`
/// if there is none.
pub open spec fn find_from(s: Seq<char>, c: char, from: int) -> int
    decreases s.len() - from,
{
    if from < 0 || from >= s.len() {
        s.len() as int
    } else if s[from] == c {
        from
    } else {
        find_from(s, c, from + 1)
    }
}

/// A line without the carriage return that ended it, if one did.
pub open spec fn without_carriage_return(line: Seq<char>) -> Seq<char> {
    if line.len() > 0 && line[line.len() - 1] == '\r' {
        line.subrange(0, line.len() - 1)
    } else {
        line
    }
}

/// The lines of `s` from index `from` on. A line ends with a line feed, or
/// with a carriage return and a line feed; neither belongs to the line. The
/// last line needs no line feed, and is then taken as it stands.
pub open spec fn lines_from(s: Seq<char>, from: int) -> Seq<Seq<char>>
    decreases s.len() - from,
{
    if from < 0 || from >= s.len() {
        Seq::empty()
    } else {
        let end = find_from(s, '\n', from);
        if from <= end < s.len() {
            seq![without_carriage_return(s.subrange(from, end))] + lines_from(s, end + 1)
        } else {
            seq![s.subrange(from, s.len() as int)]
        }
    }
}

/// The lines of a text.
pub open spec fn lines(s: Seq<char>) -> Seq<Seq<char>> {
    lines_from(s, 0)
}

/// The record that a line denotes, if it denotes one.
pub open spec fn parse_row(line: Seq<char>) -> Option<RecordView> {
    let first = find_from(line, '|', 0);
    let second = find_from(line, '|', first + 1);
    if first < line.len() && second < line.len() {
        match parse_i64(line.subrange(0, first)) {
            Some(position) => Some(
                RecordView {
                    position,
                    sender: line.subrange(first + 1, second),
                    text: line.subrange(second + 1, line.len() as int),
                },
            ),
            None => None,
        }
    } else {
        None
    }
}

/// The records that the lines denote, in order; none where a line denotes
/// no record.
pub open spec fn parse_lines(lines: Seq<Seq<char>>) -> Option<Seq<RecordView>>
    decreases lines.len(),
{
    if lines.len() == 0 {
        Some(Seq::empty())
    } else {
        match (parse_lines(lines.drop_last()), parse_row(lines.last())) {
            (Some(before), Some(record)) => Some(before.push(record)),
            _ => None,
        }
    }
}

/// The records that the output of a fetch denotes; none where the output is
/// malformed. An empty output denotes no records and is well formed.
pub open spec fn parse_rows(output: Seq<char>) -> Option<Seq<RecordView>> {
    parse_lines(lines(output))
}

/// The position that the output of the query for the greatest position
/// denotes: the integer that is left when the output is trimmed, if that is
/// one.
pub open spec fn parse_max_rowid(output: Seq<char>) -> Option<i64> {
    parse_i64(trimmed(output))
}

/// The field separator that the query tool is asked to print.
pub fn separator() -> (r: &'static str)
    ensures
        r@ == seq!['|'],
{
    let r = "|";
    proof {
        reveal_strlit("|");
    }
    assert(r@ =~= seq!['|']);
    r
}

/// The query for the greatest position among the messages received.
pub fn max_rowid_query() -> (r: &'static str)
    ensures
        r@ == max_rowid_query_text(),
{
    "SELECT MAX(ROWID) FROM message WHERE is_from_me = 0;"
}

/// The query for the messages received beyond `since_rowid`: by rising
/// position, twenty at most.
pub fn fetch_query(since_rowid: i64) -> (r: String)
    ensures
        r@ == fetch_query_text(since_rowid),
{
    let mut r = String::new();
    r.append(
        "SELECT m.ROWID, h.id, m.text FROM message m JOIN handle h ON m.handle_id = h.ROWID WHERE m.ROWID > ",
    );
    push_decimal(&mut r, since_rowid);
    r.append(" AND m.is_from_me = 0 AND m.text IS NOT NULL ORDER BY m.ROWID ASC LIMIT 20;");
    assert(r@ == fetch_query_text(since_rowid));
    r
}

/// Reads the answer to the query for the greatest position.
pub fn read_max_rowid(output: &str) -> (r: Option<i64>)
    ensures
        r == parse_max_rowid(output@),
{
    let text = trim(output);
    parse_i64_text(text.as_str())
}

/// The first index in `from..to` where `chars` holds `c`, or `to`.
fn find_char(chars: &Vec<char>, c: char, from: usize, to: usize) -> (at: usize)
    requires
        from <= to <= chars.len(),
    ensures
        from <= at <= to,
        forall|k: int| from <= k < at ==> chars@[k] != c,
        at < to ==> chars@[at as int] == c,
{
    let mut at: usize = from;
    while at < to && chars[at] != c
        invariant
            from <= at <= to <= chars.len(),
            forall|k: int| from <= k < at ==> chars@[k] != c,
        decreases to - at,
    {
        at = at + 1;
    }
    at
}

/// `find_from` is the first index of `c` at or after `from`.
pub proof fn lemma_find_from(s: Seq<char>, c: char, from: int, at: int)
    requires
        0 <= from <= at <= s.len(),
        forall|k: int| from <= k < at ==> s[k] != c,
        at < s.len() ==> s[at] == c,
    ensures
        find_from(s, c, from) == at,
    decreases at - from,
{
    if from < at {
        lemma_find_from(s, c, from + 1, at);
    }
}

/// Reads the record that the line `chars[from..to]` denotes.
fn read_row(chars: &Vec<char>, from: usize, to: usize) -> (r: Option<Record>)
    requires
        from <= to <= chars.len(),
    ensures
        match r {
            Some(record) => parse_row(chars@.subrange(from as int, to as int)) == Some(record@),
            None => parse_row(chars@.subrange(from as int, to as int)).is_none(),
        },
{
    let ghost line = chars@.subrange(from as int, to as int);
    let first = find_char(chars, '|', from, to);
    proof {
        lemma_find_from(line, '|', 0, first - from);
    }
    if first == to {
        return None;
    }
    let second = find_char(chars, '|', first + 1, to);
    proof {
        lemma_find_from(line, '|', first - from + 1, second - from);
    }
    if second == to {
        return None;
    }
    assert(line.subrange(0, first - from) == chars@.subrange(from as int, first as int));
    assert(line.subrange(first - from + 1, second - from) == chars@.subrange(
        first + 1,
        second as int,
    ));
    assert(line.subrange(second - from + 1, line.len() as int) == chars@.subrange(
        second + 1,
        to as int,
    ));
    match parse_i64_chars(chars, from, first) {
        Some(position) => Some(
            Record {
                position,
                sender: text_of(chars, first + 1, second),
                text: text_of(chars, second + 1, to),
            },
        ),
        None => None,
    }
}

/// Where some of the lines denote no records, no longer list of lines does.
proof fn lemma_parse_lines_none(seen: Seq<Seq<char>>, rest: Seq<Seq<char>>)
    requires
        parse_lines(seen).is_none(),
    ensures
        parse_lines(seen + rest).is_none(),
    decreases rest.len(),
{
    if rest.len() == 0 {
        assert(seen + rest == seen);
    } else {
        assert((seen + rest).drop_last() == seen + rest.drop_last());
        lemma_parse_lines_none(seen, rest.drop_last());
    }
}

/// Reads the records that the output of a fetch denotes; `None` where the
/// output is malformed.
pub fn read_rows(output: &str) -> (r: Option<Vec<Record>>)
    ensures
        match r {
            Some(records) => parse_rows(output@) == Some(record_views(records@)),
            None => parse_rows(output@).is_none(),
        },
{
    let chars = chars_of(output);
    let n = chars.len();
    let mut records: Vec<Record> = Vec::new();
    let mut from: usize = 0;
    let ghost mut seen: Seq<Seq<char>> = Seq::empty();
    assert(seen + lines_from(chars@, 0) == lines(chars@));
    assert(record_views(records@) == Seq::<RecordView>::empty());
    while from < n
        invariant
            from <= n,
            n == chars.len(),
            chars@ == output@,
            lines(chars@) == seen + lines_from(chars@, from as int),
            parse_lines(seen) == Some(record_views(records@)),
        decreases n - from,
    {
        let end = find_char(&chars, '\n', from, n);
        proof {
            lemma_find_from(chars@, '\n', from as int, end as int);
        }
        let stop: usize = if end < n && end > from && chars[end - 1] == '\r' {
            end - 1
        } else {
            end
        };
        let ghost raw = chars@.subrange(from as int, end as int);
        let ghost line = chars@.subrange(from as int, stop as int);
        assert(line == if end < n {
            without_carriage_return(raw)
        } else {
            raw
        }) by {
            if stop < end {
                assert(raw[raw.len() - 1] == '\r');
                assert(raw.subrange(0, raw.len() - 1) == line);
            } else if end < n && raw.len() > 0 {
                assert(raw[raw.len() - 1] == chars@[end - 1]);
            }
        }
        let ghost rest = if end < n {
            lines_from(chars@, end + 1)
        } else {
            Seq::<Seq<char>>::empty()
        };
        assert(lines_from(chars@, from as int) == seq![line] + rest);
        assert(seen + (seq![line] + rest) == seen.push(line) + rest);
        assert(seen.push(line).drop_last() == seen);
        let ghost before = records@;
        match read_row(&chars, from, stop) {
            Some(record) => {
                records.push(record);
                assert(record_views(records@) == record_views(before).push(record@));
            },
            None => {
                proof {
                    lemma_parse_lines_none(seen.push(line), rest);
                }
                return None;
            },
        }
        proof {
            seen = seen.push(line);
        }
        if end < n {
            from = end + 1;
        } else {
            from = n;
        }
    }
    assert(seen + Seq::<Seq<char>>::empty() == seen);
    Some(records)
}

} // verus!
