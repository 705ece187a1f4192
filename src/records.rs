//! The records that pages carry: names of groups and streams, log events, and
//! the text line of an event.

use vstd::prelude::*;
use vstd::string::*;

verus! {

/// A log event as the service hands it over: any field may be missing.
#[derive(Debug)]
pub struct RawEvent {
    pub ingestion_time: Option<i64>,
    pub message: Option<String>,
    pub timestamp: Option<i64>,
}

/// A log event with all three fields present.
#[derive(Debug)]
pub struct LogEvent {
    pub ingestion_time: i64,
    pub message: String,
    pub timestamp: i64,
}

/// The complete event that a raw one stands for, if it has all its fields.
pub open spec fn complete_of(e: RawEvent) -> Option<LogEvent> {
    match (e.ingestion_time, e.message, e.timestamp) {
        (Some(i), Some(m), Some(t)) => Some(LogEvent { ingestion_time: i, message: m, timestamp: t }),
        _ => None,
    }
}

/// The complete events among `raw`, in order; the others are dropped.
pub open spec fn complete_events_spec(raw: Seq<RawEvent>) -> Seq<LogEvent>
    decreases raw.len(),
{
    if raw.len() == 0 {
        Seq::empty()
    } else {
        complete_events_spec(raw.drop_last()) + match complete_of(raw.last()) {
            Some(e) => seq![e],
            None => Seq::empty(),
        }
    }
}

/// Keeps the events that have all three fields, in their order, and drops
/// the others without a word.
pub fn complete_events(raw: &Vec<RawEvent>) -> (r: Vec<LogEvent>)
    ensures
        r@ == complete_events_spec(raw@),
{
    let mut out: Vec<LogEvent> = Vec::new();
    let mut i: usize = 0;
    while i < raw.len()
        invariant
            i <= raw@.len(),
            out@ == complete_events_spec(raw@.take(i as int)),
        decreases raw@.len() - i,
    {
        let e = &raw[i];
        proof {
            assert(raw@.take(i as int + 1).drop_last() =~= raw@.take(i as int));
            assert(raw@.take(i as int + 1).last() == raw@[i as int]);
        }
        match (&e.ingestion_time, &e.message, &e.timestamp) {
            (Some(it), Some(m), Some(t)) => {
                out.push(LogEvent { ingestion_time: *it, message: m.clone(), timestamp: *t });
            },
            _ => {},
        }
        i = i + 1;
    }
    proof {
        assert(raw@.take(raw@.len() as int) =~= raw@);
    }
    out
}

/// The names of groups or streams, each of which must have one: `Err(k)`
/// gives the position of the first entry without a name.
///
/// A group or stream without a name is a broken record from the service,
/// and it fails the whole listing, for groups, for streams and for the
/// streams whose events are read alike. A malformed event, by contrast, is
/// only dropped (see `complete_events`).
pub fn names_of(entries: &Vec<Option<String>>) -> (r: Result<Vec<String>, usize>)
    ensures
        match r {
            Ok(names) => {
                &&& names@.len() == entries@.len()
                &&& forall|i: int| 0 <= i < entries@.len() ==> #[trigger] entries@[i] == Some(names@[i])
            },
            Err(k) => {
                &&& k < entries@.len()
                &&& entries@[k as int] is None
                &&& forall|i: int| 0 <= i < k ==> #[trigger] entries@[i] is Some
            },
        },
{
    let mut names: Vec<String> = Vec::new();
    let mut i: usize = 0;
    while i < entries.len()
        invariant
            i <= entries@.len(),
            names@.len() == i,
            forall|j: int| 0 <= j < i ==> #[trigger] entries@[j] == Some(names@[j]),
        decreases entries@.len() - i,
    {
        match &entries[i] {
            Some(n) => names.push(n.clone()),
            None => return Err(i),
        }
        i = i + 1;
    }
    Ok(names)
}

/// The decimal digits of a natural number, most significant first.
pub open spec fn digits(n: nat) -> Seq<char>
    decreases n,
{
    let d = seq!['0', '1', '2', '3', '4', '5', '6', '7', '8', '9'];
    if n < 10 {
        seq![d[n as int]]
    } else {
        digits(n / 10).push(d[(n % 10) as int])
    }
}

/// An integer written in decimal, with a leading '-' when negative.
pub open spec fn decimal(n: int) -> Seq<char> {
    if n < 0 {
        seq!['-'] + digits((-n) as nat)
    } else {
        digits(n as nat)
    }
}

/// The text of one decimal digit.
fn digit_text(d: u64) -> (r: &'static str)
    requires
        d < 10,
    ensures
        r@ == seq![seq!['0', '1', '2', '3', '4', '5', '6', '7', '8', '9'][d as int]],
{
    proof {
        reveal_strlit("0");
        reveal_strlit("1");
        reveal_strlit("2");
        reveal_strlit("3");
        reveal_strlit("4");
        reveal_strlit("5");
        reveal_strlit("6");
        reveal_strlit("7");
        reveal_strlit("8");
        reveal_strlit("9");
    }
    let r = if d == 0 {
        "0"
    } else if d == 1 {
        "1"
    } else if d == 2 {
        "2"
    } else if d == 3 {
        "3"
    } else if d == 4 {
        "4"
    } else if d == 5 {
        "5"
    } else if d == 6 {
        "6"
    } else if d == 7 {
        "7"
    } else if d == 8 {
        "8"
    } else {
        "9"
    };
    assert(r@ =~= seq![seq!['0', '1', '2', '3', '4', '5', '6', '7', '8', '9'][d as int]]);
    r
}

/// Appends the decimal digits of `n` to `line`.
fn push_digits(line: &mut String, n: u64)
    ensures
        final(line)@ == old(line)@ + digits(n as nat),
    decreases n,
{
    if n >= 10 {
        push_digits(line, n / 10);
    }
    line.append(digit_text(n % 10));
    proof {
        if n >= 10 {
            assert(old(line)@ + digits((n / 10) as nat) + digits(n as nat).subrange(
                digits(n as nat).len() - 1,
                digits(n as nat).len() as int,
            ) =~= old(line)@ + digits(n as nat));
        }
    }
}

/// An integer in decimal, with a leading '-' when negative.
pub fn int_text(n: i64) -> (r: String)
    ensures
        r@ == decimal(n as int),
{
    let mut line = String::new();
    if n < 0 {
        proof {
            reveal_strlit("-");
        }
        line.append("-");
        let m: i128 = 0i128 - (n as i128);
        push_digits(&mut line, m as u64);
    } else {
        push_digits(&mut line, n as u64);
    }
    line
}

/// The text line of an event: ingestion time, message and timestamp,
/// separated by single spaces.
pub open spec fn event_line_spec(e: LogEvent) -> Seq<char> {
    decimal(e.ingestion_time as int) + seq![' '] + e.message@ + seq![' '] + decimal(e.timestamp as int)
}

/// Writes an event as `ingestionTime message timestamp`.
pub fn event_line(e: &LogEvent) -> (r: String)
    ensures
        r@ == event_line_spec(*e),
{
    proof {
        reveal_strlit(" ");
    }
    let mut line = int_text(e.ingestion_time);
    line.append(" ");
    line.append(e.message.as_str());
    line.append(" ");
    let t = int_text(e.timestamp);
    line.append(t.as_str());
    line
}

} // verus!
