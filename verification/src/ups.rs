//! The uninterruptible power supply, as the `upsc` program reports it: a line
//! per variable, its name, a colon, a space, and its value.

use vstd::prelude::*;
use vstd::string::*;

use crate::decimal::{count_value, decimal_value, parse_count, parse_decimal};
use crate::state::{no_values, InnerState, UpsReading, UpsValues};
use crate::text::{characters, same_text};

verus! {

/// Seconds between two polls.
pub const POLL_INTERVAL: u64 = 2;

/// Seconds after which a poll is given up.
pub const READ_TIMEOUT: u64 = 3;

// ---------------------------------------------------------------------------
// The report
// ---------------------------------------------------------------------------
/// Whether a character is white space.
pub open spec fn is_space(c: char) -> bool {
    let code = c as int;
    ||| 0x09 <= code <= 0x0d
    ||| code == 0x20
    ||| code == 0x85
    ||| code == 0xa0
    ||| code == 0x1680
    ||| 0x2000 <= code <= 0x200a
    ||| code == 0x2028
    ||| code == 0x2029
    ||| code == 0x202f
    ||| code == 0x205f
    ||| code == 0x3000
}

/// A text without the white space in front.
pub open spec fn without_lead(s: Seq<char>) -> Seq<char>
    decreases s.len(),
{
    if s.len() > 0 && is_space(s[0]) {
        without_lead(s.drop_first())
    } else {
        s
    }
}

/// A text without the white space behind.
pub open spec fn without_trail(s: Seq<char>) -> Seq<char>
    decreases s.len(),
{
    if s.len() > 0 && is_space(s.last()) {
        without_trail(s.drop_last())
    } else {
        s
    }
}

/// A text without the white space around it.
pub open spec fn trimmed(s: Seq<char>) -> Seq<char> {
    without_trail(without_lead(s))
}

/// Where the line that starts at `i` ends.
pub open spec fn line_end(s: Seq<char>, i: int) -> int
    decreases s.len() - i,
{
    if 0 <= i < s.len() && s[i] != '\n' {
        line_end(s, i + 1)
    } else {
        i
    }
}

/// The line that starts at `i`. A carriage return before the line feed belongs to
/// the end of the line.
pub open spec fn line_at(s: Seq<char>, i: int) -> Seq<char> {
    let end = line_end(s, i);
    if end < s.len() && end > i && s[end - 1] == '\r' {
        s.subrange(i, end - 1)
    } else {
        s.subrange(i, end)
    }
}

/// Where the line after the one that starts at `i` starts.
pub open spec fn next_line(s: Seq<char>, i: int) -> int {
    let end = line_end(s, i);
    if end < s.len() {
        end + 1
    } else {
        end
    }
}

/// Where the first colon with a space behind it stands, from `i` on.
pub open spec fn separator_from(line: Seq<char>, i: int) -> Option<int>
    decreases line.len() - i,
{
    if i + 1 >= line.len() {
        None
    } else if line[i] == ':' && line[i + 1] == ' ' {
        Some(i)
    } else {
        separator_from(line, i + 1)
    }
}

/// A reading with one more variable taken in. A variable that is named again
/// counts anew, also where its value cannot be read.
pub open spec fn with_variable(values: UpsValues, name: Seq<char>, value: Seq<char>) -> UpsValues {
    if name == "input.voltage"@ {
        UpsValues { input_voltage_v: decimal_value(value), ..values }
    } else if name == "input.frequency"@ {
        UpsValues { input_frequency_hz: decimal_value(value), ..values }
    } else if name == "output.voltage"@ {
        UpsValues { output_voltage_v: decimal_value(value), ..values }
    } else if name == "ups.load"@ {
        UpsValues { load_pct: decimal_value(value), ..values }
    } else if name == "battery.charge"@ {
        UpsValues { battery_pct: decimal_value(value), ..values }
    } else if name == "battery.voltage"@ {
        UpsValues { battery_voltage_v: decimal_value(value), ..values }
    } else if name == "battery.runtime"@ {
        UpsValues { runtime_s: count_value(value), ..values }
    } else if name == "ups.status"@ {
        UpsValues { status: Some(trimmed(value)), ..values }
    } else {
        values
    }
}

/// A reading with one more line taken in. A line without a separator says nothing.
pub open spec fn with_line(values: UpsValues, line: Seq<char>) -> UpsValues {
    match separator_from(line, 0) {
        Some(i) => with_variable(
            values,
            line.subrange(0, i),
            line.subrange(i + 2, line.len() as int),
        ),
        None => values,
    }
}

/// A reading with every line from `i` on taken in.
pub open spec fn with_lines(values: UpsValues, report: Seq<char>, i: int) -> UpsValues
    decreases report.len() - i,
    via with_lines_ends
{
    if 0 <= i < report.len() {
        with_lines(with_line(values, line_at(report, i)), report, next_line(report, i))
    } else {
        values
    }
}

#[via_fn]
proof fn with_lines_ends(values: UpsValues, report: Seq<char>, i: int) {
    if 0 <= i < report.len() {
        lemma_line_end(report, i);
    }
}

proof fn lemma_line_end(s: Seq<char>, i: int)
    requires
        0 <= i <= s.len(),
    ensures
        i <= line_end(s, i) <= s.len(),
        i < s.len() ==> i < next_line(s, i) <= s.len(),
    decreases s.len() - i,
{
    if i < s.len() && s[i] != '\n' {
        lemma_line_end(s, i + 1);
    }
}

/// Whether a character is white space.
fn is_white_space(c: char) -> (b: bool)
    ensures
        b == is_space(c),
{
    let code: u32 = c as u32;
    (0x09 <= code && code <= 0x0d) || code == 0x20 || code == 0x85 || code == 0xa0 || code == 0x1680
        || (0x2000 <= code && code <= 0x200a) || code == 0x2028 || code == 0x2029 || code == 0x202f
        || code == 0x205f || code == 0x3000
}

/// A text without the white space around it.
pub fn trim(text: &str) -> (inner: String)
    ensures
        inner@ == trimmed(text@),
{
    let s: Vec<char> = characters(text);
    let len: usize = s.len();
    let mut start: usize = 0;
    assert(s@.skip(0) =~= s@);
    while start < len && is_white_space(s[start])
        invariant
            start <= len,
            len == s@.len(),
            without_lead(s@) == without_lead(s@.skip(start as int)),
        decreases len - start,
    {
        assert(s@.skip(start as int).drop_first() =~= s@.skip(start + 1));
        start = start + 1;
    }
    let ghost rest = s@.skip(start as int);
    assert(without_lead(s@) == rest);
    let mut end: usize = len;
    assert(rest.take(len - start) =~= rest);
    while end > start && is_white_space(s[end - 1])
        invariant
            start <= end <= len,
            len == s@.len(),
            rest == s@.skip(start as int),
            without_trail(rest) == without_trail(rest.take(end - start)),
        decreases end,
    {
        assert(rest.take(end - start).drop_last() =~= rest.take(end - 1 - start));
        assert(rest.take(end - start).last() == s@[end - 1]);
        end = end - 1;
    }
    assert(rest.take(end - start) =~= text@.subrange(start as int, end as int));
    assert(end > start ==> rest.take(end - start).last() == s@[end - 1]);
    text.substring_char(start, end).to_owned()
}

/// Takes one variable in.
fn take_variable(reading: &mut UpsReading, name: &str, value: &str)
    ensures
        final(reading)@ == with_variable(old(reading)@, name@, value@),
{
    if same_text(name, "input.voltage") {
        reading.input_voltage_v = parse_decimal(value);
    } else if same_text(name, "input.frequency") {
        reading.input_frequency_hz = parse_decimal(value);
    } else if same_text(name, "output.voltage") {
        reading.output_voltage_v = parse_decimal(value);
    } else if same_text(name, "ups.load") {
        reading.load_pct = parse_decimal(value);
    } else if same_text(name, "battery.charge") {
        reading.battery_pct = parse_decimal(value);
    } else if same_text(name, "battery.voltage") {
        reading.battery_voltage_v = parse_decimal(value);
    } else if same_text(name, "battery.runtime") {
        reading.runtime_s = parse_count(value);
    } else if same_text(name, "ups.status") {
        reading.status = Some(trim(value));
    }
}

/// Takes one line in.
fn take_line(reading: &mut UpsReading, line: &str)
    ensures
        final(reading)@ == with_line(old(reading)@, line@),
{
    let s: Vec<char> = characters(line);
    let len: usize = s.len();
    let mut i: usize = 0;
    while len >= 2 && i < len - 1
        invariant
            len == s@.len(),
            s@ == line@,
            i <= len,
            separator_from(line@, 0) == separator_from(line@, i as int),
            reading@ == old(reading)@,
        decreases len - i,
    {
        if s[i] == ':' && s[i + 1] == ' ' {
            let name: &str = line.substring_char(0, i);
            let value: &str = line.substring_char(i + 2, len);
            take_variable(reading, name, value);
            return;
        }
        i = i + 1;
    }
}

/// Takes every line of a report in.
fn take_lines(reading: &mut UpsReading, report: &str)
    ensures
        final(reading)@ == with_lines(old(reading)@, report@, 0),
{
    let s: Vec<char> = characters(report);
    let len: usize = s.len();
    let mut i: usize = 0;
    while i < len
        invariant
            len == s@.len(),
            s@ == report@,
            i <= len,
            with_lines(old(reading)@, report@, 0) == with_lines(reading@, report@, i as int),
        decreases len - i,
    {
        let mut end: usize = i;
        while end < len && s[end] != '\n'
            invariant
                i <= end <= len,
                len == s@.len(),
                line_end(s@, i as int) == line_end(s@, end as int),
            decreases len - end,
        {
            end = end + 1;
        }
        let cut: usize = if end < len && end > i && s[end - 1] == '\r' {
            end - 1
        } else {
            end
        };
        let line: &str = report.substring_char(i, cut);
        assert(line@ == line_at(report@, i as int));
        take_line(reading, line);
        proof {
            lemma_line_end(report@, i as int);
        }
        i = if end < len {
            end + 1
        } else {
            end
        };
    }
}

/// What a report says of the power supply at `last_seen`, in seconds since 1970.
pub open spec fn report_values(report: Seq<char>, last_seen: i64) -> UpsValues {
    UpsValues { last_seen, ..with_lines(no_values(), report, 0) }
}

/// Reads a report.
pub fn read_ups(report: &str, last_seen: i64) -> (reading: UpsReading)
    ensures
        reading@ == report_values(report@, last_seen),
{
    let mut reading: UpsReading = UpsReading::default();
    take_lines(&mut reading, report);
    reading.last_seen = last_seen;
    reading
}

// ---------------------------------------------------------------------------
// Polling
// ---------------------------------------------------------------------------
/// What a poll gives to tell.
#[derive(Debug, Clone, Copy, PartialEq, Eq, Structural)]
pub enum PollNote {
    /// The supply answers as before.
    Quiet,
    /// It answers again, after so many polls that failed.
    Restored(u32),
    /// It has stopped answering.
    Lost,
    /// It still does not answer, after so many polls that failed.
    StillLost(u32),
}

/// How many polls in a row have failed.
#[derive(Debug, Clone, Copy, PartialEq, Eq, Structural)]
pub struct UpsPoll {
    pub consecutive_errors: u32,
}

/// How many polls in a row have failed after one more.
pub open spec fn failures_after(failures: u32, answered: bool) -> u32 {
    if answered {
        0
    } else if failures < u32::MAX {
        (failures + 1) as u32
    } else {
        failures
    }
}

/// What a poll gives to tell, after so many that failed.
pub open spec fn poll_note(failures: u32, answered: bool) -> PollNote {
    if answered && failures == 0 {
        PollNote::Quiet
    } else if answered {
        PollNote::Restored(failures)
    } else if failures == 0 {
        PollNote::Lost
    } else {
        PollNote::StillLost(failures)
    }
}

impl UpsPoll {
    /// No poll has failed yet.
    pub fn new() -> (poll: Self)
        ensures
            poll.consecutive_errors == 0,
    {
        UpsPoll { consecutive_errors: 0 }
    }

    /// Takes the outcome of a poll in: the reading is published, and a poll that
    /// failed withdraws the one before.
    pub fn record(&mut self, inner: &mut InnerState, reading: Option<UpsReading>) -> (note: PollNote)
        ensures
            *final(inner) == (InnerState { ups: reading, ..*old(inner) }),
            note == poll_note(old(self).consecutive_errors, reading is Some),
            final(self).consecutive_errors == failures_after(
                old(self).consecutive_errors,
                reading is Some,
            ),
            match reading {
                Some(_) => {
                    &&& final(self).consecutive_errors == 0
                    &&& note == if old(self).consecutive_errors > 0 {
                        PollNote::Restored(old(self).consecutive_errors)
                    } else {
                        PollNote::Quiet
                    }
                },
                None => {
                    &&& final(self).consecutive_errors == if old(self).consecutive_errors
                        < u32::MAX {
                        old(self).consecutive_errors + 1
                    } else {
                        u32::MAX as int
                    }
                    &&& note == if old(self).consecutive_errors > 0 {
                        PollNote::StillLost(old(self).consecutive_errors)
                    } else {
                        PollNote::Lost
                    }
                },
            },
    {
        let failed: u32 = self.consecutive_errors;
        let answered: bool = reading.is_some();
        inner.ups = reading;
        if answered {
            self.consecutive_errors = 0;
            if failed > 0 {
                PollNote::Restored(failed)
            } else {
                PollNote::Quiet
            }
        } else {
            self.consecutive_errors = failed.saturating_add(1);
            if failed > 0 {
                PollNote::StillLost(failed)
            } else {
                PollNote::Lost
            }
        }
    }
}

} // verus!
