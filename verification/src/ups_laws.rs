//! What a report of the power supply says, wherever in it a line stands.

use vstd::prelude::*;

use crate::decimal::{count_value, decimal_value};
use crate::state::{no_values, UpsReading, UpsValues};
use crate::ups::{
    failures_after, is_space, line_at, line_end, next_line, report_values, separator_from, poll_note,
    trimmed, with_line, with_lines, with_variable, without_lead, without_trail, PollNote,
};

verus! {

// ---------------------------------------------------------------------------
// White space
// ---------------------------------------------------------------------------
/// Nothing but white space.
pub open spec fn all_space(s: Seq<char>) -> bool {
    forall|i: int| 0 <= i < s.len() ==> is_space(#[trigger] s[i])
}

/// Trimming takes white space off both ends, all of it, and nothing else.
pub proof fn law_trim_takes_the_ends_off(s: Seq<char>)
    ensures
        exists|front: Seq<char>, back: Seq<char>|
            #![trigger all_space(front), all_space(back)]
            all_space(front) && all_space(back) && s == front + trimmed(s) + back,
        trimmed(s).len() > 0 ==> !is_space(trimmed(s)[0]) && !is_space(trimmed(s).last()),
{
    let front = lemma_lead(s);
    let middle = without_lead(s);
    let back = lemma_trail(middle);
    assert(s =~= front + trimmed(s) + back);
    assert(trimmed(s).len() > 0 ==> trimmed(s)[0] == middle[0]);
}

proof fn lemma_lead(s: Seq<char>) -> (front: Seq<char>)
    ensures
        all_space(front),
        s == front + without_lead(s),
        without_lead(s).len() > 0 ==> !is_space(without_lead(s)[0]),
    decreases s.len(),
{
    if s.len() > 0 && is_space(s[0]) {
        let rest = lemma_lead(s.drop_first());
        let front = seq![s[0]] + rest;
        assert forall|i: int| 0 <= i < front.len() implies is_space(#[trigger] front[i]) by {
            if i > 0 {
                assert(front[i] == rest[i - 1]);
            }
        }
        let left = without_lead(s.drop_first());
        assert(without_lead(s) == left);
        assert(s =~= seq![s[0]] + (rest + left));
        assert(front + left =~= seq![s[0]] + (rest + left));
        front
    } else {
        assert(s =~= Seq::<char>::empty() + s);
        Seq::empty()
    }
}

proof fn lemma_trail(s: Seq<char>) -> (back: Seq<char>)
    ensures
        all_space(back),
        s == without_trail(s) + back,
        without_trail(s).len() > 0 ==> !is_space(without_trail(s).last()),
    decreases s.len(),
{
    if s.len() > 0 && is_space(s.last()) {
        let rest = lemma_trail(s.drop_last());
        let back = rest.push(s.last());
        let left = without_trail(s.drop_last());
        assert(without_trail(s) == left);
        assert(s =~= (left + rest).push(s.last()));
        assert(left + back =~= (left + rest).push(s.last()));
        back
    } else {
        assert(s =~= s + Seq::<char>::empty());
        Seq::empty()
    }
}

// ---------------------------------------------------------------------------
// Lines
// ---------------------------------------------------------------------------
/// A text without a line feed.
pub open spec fn is_one_line(s: Seq<char>) -> bool {
    forall|i: int| 0 <= i < s.len() ==> #[trigger] s[i] != '\n'
}

/// Whole lines: nothing, or a text that ends in a line feed.
pub open spec fn is_whole_lines(s: Seq<char>) -> bool {
    s.len() == 0 || s.last() == '\n'
}

proof fn lemma_line(s: Seq<char>, i: int)
    requires
        0 <= i <= s.len(),
    ensures
        i <= line_end(s, i) <= s.len(),
        forall|j: int| i <= j < line_end(s, i) ==> #[trigger] s[j] != '\n',
        line_end(s, i) < s.len() ==> s[line_end(s, i)] == '\n',
    decreases s.len() - i,
{
    if i < s.len() && s[i] != '\n' {
        lemma_line(s, i + 1);
    }
}

proof fn lemma_line_is(s: Seq<char>, i: int, end: int)
    requires
        0 <= i <= end <= s.len(),
        forall|j: int| i <= j < end ==> #[trigger] s[j] != '\n',
        end < s.len() ==> s[end] == '\n',
    ensures
        line_end(s, i) == end,
    decreases end - i,
{
    if i < end {
        assert(s[i] != '\n');
        lemma_line_is(s, i + 1, end);
    }
}

/// Taking in a report of two parts that are joined behind a line feed is taking in the
/// one and then the other, whatever their lengths.
pub proof fn law_parts_of_a_report(values: UpsValues, first: Seq<char>, second: Seq<char>)
    requires
        is_whole_lines(first),
    ensures
        with_lines(values, first + second, 0) == with_lines(
            with_lines(values, first, 0),
            second,
            0,
        ),
{
    lemma_parts(values, first, second, 0);
}

proof fn lemma_parts(values: UpsValues, first: Seq<char>, second: Seq<char>, i: int)
    requires
        is_whole_lines(first),
        0 <= i <= first.len(),
    ensures
        with_lines(values, first + second, i) == with_lines(
            with_lines(values, first, i),
            second,
            0,
        ),
    decreases first.len() - i,
{
    let whole = first + second;
    if i == first.len() {
        lemma_shift(values, first, second, 0);
    } else {
        lemma_line(first, i);
        let end = line_end(first, i);
        assert(end < first.len()) by {
            assert(first[first.len() - 1] == '\n');
        }
        assert forall|j: int| i <= j < end implies #[trigger] whole[j] != '\n' by {
            assert(whole[j] == first[j]);
        }
        assert(whole[end] == first[end]);
        lemma_line_is(whole, i, end);
        if end > i {
            assert(whole[end - 1] == first[end - 1]);
        }
        assert(line_at(whole, i) =~= line_at(first, i));
        lemma_parts(with_line(values, line_at(first, i)), first, second, end + 1);
    }
}

proof fn lemma_shift(values: UpsValues, first: Seq<char>, second: Seq<char>, k: int)
    requires
        0 <= k <= second.len(),
    ensures
        with_lines(values, first + second, first.len() + k) == with_lines(values, second, k),
    decreases second.len() - k,
{
    let whole = first + second;
    if k < second.len() {
        let i = first.len() + k;
        lemma_line(second, k);
        let end = line_end(second, k);
        assert forall|j: int| i <= j < first.len() + end implies #[trigger] whole[j] != '\n' by {
            assert(whole[j] == second[j - first.len()]);
        }
        if end < second.len() {
            assert(whole[first.len() + end] == second[end]);
        }
        lemma_line_is(whole, i, first.len() + end);
        if end > k {
            assert(whole[first.len() + end - 1] == second[end - 1]);
        }
        assert(line_at(whole, i) =~= line_at(second, k));
        let next: int = next_line(second, k);
        assert(k < next <= second.len());
        lemma_shift(with_line(values, line_at(second, k)), first, second, next);
    }
}

/// One line is taken in as it is, and so it is with a line feed behind it, or a carriage
/// return and a line feed; an empty line says nothing.
pub proof fn law_one_line_is_taken_in(values: UpsValues, line: Seq<char>)
    requires
        is_one_line(line),
    ensures
        with_lines(values, line, 0) == with_line(values, line),
        line.len() == 0 || line.last() != '\r' ==> with_lines(values, line + seq!['\n'], 0)
            == with_line(values, line),
        with_lines(values, line + seq!['\r', '\n'], 0) == with_line(values, line),
        with_line(values, Seq::empty()) == values,
{
    if line.len() > 0 {
        lemma_line_is(line, 0, line.len() as int);
        assert(line_at(line, 0) =~= line);
    } else {
        assert(line =~= Seq::<char>::empty());
    }
    let feed = line + seq!['\n'];
    assert forall|j: int| 0 <= j < line.len() implies #[trigger] feed[j] != '\n' by {
        assert(feed[j] == line[j]);
    }
    lemma_line_is(feed, 0, line.len() as int);
    if line.len() > 0 {
        assert(feed[line.len() - 1] == line.last());
    }
    if line.len() == 0 || line.last() != '\r' {
        assert(line_at(feed, 0) =~= line);
        assert(next_line(feed, 0) == feed.len());
    }
    let both = line + seq!['\r', '\n'];
    assert forall|j: int| 0 <= j < line.len() + 1 implies #[trigger] both[j] != '\n' by {
        if j < line.len() {
            assert(both[j] == line[j]);
        }
    }
    lemma_line_is(both, 0, line.len() as int + 1);
    assert(line_at(both, 0) =~= line);
    assert(next_line(both, 0) == both.len());
    let taken = with_line(values, line);
    assert(with_lines(taken, line, line.len() as int) == taken);
    assert(with_lines(taken, feed, feed.len() as int) == taken);
    assert(with_lines(taken, both, both.len() as int) == taken);
}

// ---------------------------------------------------------------------------
// Variables
// ---------------------------------------------------------------------------
/// A name that a reading has a field for.
pub open spec fn is_known(name: Seq<char>) -> bool {
    ||| name == "input.voltage"@
    ||| name == "input.frequency"@
    ||| name == "output.voltage"@
    ||| name == "ups.load"@
    ||| name == "battery.charge"@
    ||| name == "battery.voltage"@
    ||| name == "battery.runtime"@
    ||| name == "ups.status"@
}

/// The field of a name holds what a text writes: a quantity, a number of seconds, or, for
/// the status, the text without the white space around it.
pub open spec fn shows(values: UpsValues, name: Seq<char>, text: Seq<char>) -> bool {
    &&& name == "input.voltage"@ ==> values.input_voltage_v == decimal_value(text)
    &&& name == "input.frequency"@ ==> values.input_frequency_hz == decimal_value(text)
    &&& name == "output.voltage"@ ==> values.output_voltage_v == decimal_value(text)
    &&& name == "ups.load"@ ==> values.load_pct == decimal_value(text)
    &&& name == "battery.charge"@ ==> values.battery_pct == decimal_value(text)
    &&& name == "battery.voltage"@ ==> values.battery_voltage_v == decimal_value(text)
    &&& name == "battery.runtime"@ ==> values.runtime_s == count_value(text)
    &&& name == "ups.status"@ ==> values.status == Some(trimmed(text))
}

/// Two readings agree on the field of a name.
pub open spec fn agree_on(a: UpsValues, b: UpsValues, name: Seq<char>) -> bool {
    &&& name == "input.voltage"@ ==> a.input_voltage_v == b.input_voltage_v
    &&& name == "input.frequency"@ ==> a.input_frequency_hz == b.input_frequency_hz
    &&& name == "output.voltage"@ ==> a.output_voltage_v == b.output_voltage_v
    &&& name == "ups.load"@ ==> a.load_pct == b.load_pct
    &&& name == "battery.charge"@ ==> a.battery_pct == b.battery_pct
    &&& name == "battery.voltage"@ ==> a.battery_voltage_v == b.battery_voltage_v
    &&& name == "battery.runtime"@ ==> a.runtime_s == b.runtime_s
    &&& name == "ups.status"@ ==> a.status == b.status
}

/// A line of the report starts at `i` with the name, a colon and a space.
pub open spec fn names_at(report: Seq<char>, i: int, name: Seq<char>) -> bool {
    &&& 0 <= i
    &&& i + name.len() + 2 <= report.len()
    &&& i == 0 || report[i - 1] == '\n'
    &&& report.subrange(i, i + name.len() + 2) == name + seq![':', ' ']
}

/// No line of the report gives the name.
pub open spec fn never_names(report: Seq<char>, name: Seq<char>) -> bool {
    forall|i: int| !#[trigger] names_at(report, i, name)
}

proof fn lemma_names_apart()
    ensures
        "input.voltage"@.len() == 13,
        "input.frequency"@.len() == 15,
        "input.frequency"@[0] == 'i',
        "output.voltage"@.len() == 14,
        "output.voltage"@[0] == 'o',
        "ups.load"@.len() == 8,
        "battery.charge"@.len() == 14,
        "battery.charge"@[0] == 'b',
        "battery.voltage"@.len() == 15,
        "battery.voltage"@[0] == 'b',
        "battery.voltage"@[8] == 'v',
        "battery.runtime"@.len() == 15,
        "battery.runtime"@[0] == 'b',
        "battery.runtime"@[8] == 'r',
        "ups.status"@.len() == 10,
{
    reveal_strlit("input.voltage");
    reveal_strlit("input.frequency");
    reveal_strlit("output.voltage");
    reveal_strlit("ups.load");
    reveal_strlit("battery.charge");
    reveal_strlit("battery.voltage");
    reveal_strlit("battery.runtime");
    reveal_strlit("ups.status");
}

proof fn lemma_known_names(name: Seq<char>)
    requires
        is_known(name),
    ensures
        is_one_line(name),
        forall|i: int| 0 <= i < name.len() ==> #[trigger] name[i] != ':',
{
    reveal_strlit("input.voltage");
    reveal_strlit("input.frequency");
    reveal_strlit("output.voltage");
    reveal_strlit("ups.load");
    reveal_strlit("battery.charge");
    reveal_strlit("battery.voltage");
    reveal_strlit("battery.runtime");
    reveal_strlit("ups.status");
}

/// A variable sets the field of its name to what its value writes and leaves the others
/// alone; one without a field leaves all of them alone.
pub proof fn law_variable_sets_its_field(
    values: UpsValues,
    name: Seq<char>,
    value: Seq<char>,
    other: Seq<char>,
)
    ensures
        shows(with_variable(values, name, value), name, value),
        other != name ==> agree_on(with_variable(values, name, value), values, other),
        !is_known(name) ==> with_variable(values, name, value) == values,
        with_variable(values, name, value).last_seen == values.last_seen,
{
    lemma_names_apart();
}

proof fn lemma_separator_is(line: Seq<char>, i: int, n: int)
    requires
        0 <= i <= n,
        n + 1 < line.len(),
        forall|j: int| i <= j < n ==> #[trigger] line[j] != ':',
        line[n] == ':',
        line[n + 1] == ' ',
    ensures
        separator_from(line, i) == Some(n),
    decreases n - i,
{
    if i < n {
        assert(line[i] != ':');
        lemma_separator_is(line, i + 1, n);
    }
}

proof fn lemma_separator(line: Seq<char>, i: int)
    requires
        0 <= i,
    ensures
        separator_from(line, i) matches Some(n) ==> i <= n && n + 1 < line.len() && line[n] == ':'
            && line[n + 1] == ' ',
    decreases line.len() - i,
{
    if i + 1 < line.len() && !(line[i] == ':' && line[i + 1] == ' ') {
        lemma_separator(line, i + 1);
    }
}

/// A line that starts with a name without a colon, a colon and a space gives the rest of
/// the line to that name.
pub proof fn law_line_gives_its_variable(values: UpsValues, name: Seq<char>, value: Seq<char>)
    requires
        forall|i: int| 0 <= i < name.len() ==> #[trigger] name[i] != ':',
    ensures
        with_line(values, name + seq![':', ' '] + value) == with_variable(values, name, value),
{
    let line = name + seq![':', ' '] + value;
    let n = name.len() as int;
    assert forall|j: int| 0 <= j < n implies #[trigger] line[j] != ':' by {
        assert(line[j] == name[j]);
    }
    lemma_separator_is(line, 0, n);
    assert(line.subrange(0, n) =~= name);
    assert(line.subrange(n + 2, line.len() as int) =~= value);
}

/// A report that never gives a name leaves its field alone, whatever else it says.
pub proof fn law_unnamed_fields_stay(values: UpsValues, report: Seq<char>, name: Seq<char>)
    requires
        never_names(report, name),
    ensures
        agree_on(with_lines(values, report, 0), values, name),
        with_lines(values, report, 0).last_seen == values.last_seen,
{
    lemma_unnamed(values, report, name, 0);
}

proof fn lemma_unnamed(values: UpsValues, report: Seq<char>, name: Seq<char>, i: int)
    requires
        never_names(report, name),
        0 <= i <= report.len(),
        i == 0 || report[i - 1] == '\n' || i == report.len(),
    ensures
        agree_on(with_lines(values, report, i), values, name),
        with_lines(values, report, i).last_seen == values.last_seen,
    decreases report.len() - i,
{
    if i < report.len() {
        lemma_line(report, i);
        let line = line_at(report, i);
        let after = with_line(values, line);
        lemma_separator(line, 0);
        if let Some(n) = separator_from(line, 0) {
            let given = line.subrange(0, n);
            law_variable_sets_its_field(
                values,
                given,
                line.subrange(n + 2, line.len() as int),
                name,
            );
            if given == name {
                assert(report.subrange(i, i + n + 2) =~= name + seq![':', ' ']) by {
                    assert forall|j: int| 0 <= j < n implies report[i + j] == name[j] by {
                        assert(line[j] == report[i + j]);
                        assert(given[j] == line[j]);
                    }
                    assert(line[n] == report[i + n]);
                    assert(line[n + 1] == report[i + n + 1]);
                }
                assert(names_at(report, i, name));
            }
        }
        assert(agree_on(after, values, name));
        lemma_unnamed(after, report, name, next_line(report, i));
    }
}

/// Every line counts, wherever it stands: whatever comes before and however long it is,
/// the field of a known name holds what the last line of that name writes, whether that
/// line ends in a line feed, in a carriage return and a line feed, or with the report.
pub proof fn law_last_line_of_a_name_counts(
    values: UpsValues,
    before: Seq<char>,
    name: Seq<char>,
    value: Seq<char>,
    after: Seq<char>,
)
    requires
        is_whole_lines(before),
        is_known(name),
        is_one_line(value),
        never_names(after, name),
    ensures
        ({
            let line = name + seq![':', ' '] + value;
            &&& value.len() == 0 || value.last() != '\r' ==> shows(
                with_lines(values, before + (line + seq!['\n'] + after), 0),
                name,
                value,
            )
            &&& shows(
                with_lines(values, before + (line + seq!['\r', '\n'] + after), 0),
                name,
                value,
            )
            &&& shows(with_lines(values, before + line, 0), name, value)
        }),
{
    let line = name + seq![':', ' '] + value;
    let start = with_lines(values, before, 0);
    let taken = with_variable(start, name, value);
    lemma_known_names(name);
    assert forall|i: int| 0 <= i < line.len() implies #[trigger] line[i] != '\n' by {
        if i < name.len() {
            assert(line[i] == name[i]);
        } else if i >= name.len() + 2 {
            assert(line[i] == value[i - name.len() - 2]);
        }
    }
    if value.len() > 0 {
        assert(line.last() == value.last());
    }
    law_line_gives_its_variable(start, name, value);
    law_one_line_is_taken_in(start, line);
    law_variable_sets_its_field(start, name, value, name);
    law_unnamed_fields_stay(taken, after, name);
    law_parts_of_a_report(values, before, line);
    law_parts_of_a_report(values, before, line + seq!['\n'] + after);
    law_parts_of_a_report(start, line + seq!['\n'], after);
    law_parts_of_a_report(values, before, line + seq!['\r', '\n'] + after);
    law_parts_of_a_report(start, line + seq!['\r', '\n'], after);
}

/// A report is read from nothing: what no line gives is missing, and the reading is dated
/// when it was taken. What a line gives does not depend on that date.
pub proof fn law_report_starts_from_nothing(report: Seq<char>, last_seen: i64, name: Seq<char>)
    ensures
        report_values(report, last_seen).last_seen == last_seen,
        agree_on(report_values(report, last_seen), with_lines(no_values(), report, 0), name),
        no_values().input_voltage_v is None,
        no_values().input_frequency_hz is None,
        no_values().output_voltage_v is None,
        no_values().load_pct is None,
        no_values().battery_pct is None,
        no_values().battery_voltage_v is None,
        no_values().runtime_s is None,
        no_values().status is None,
        no_values().last_seen == 0,
{
}

/// What a reading says is what its fields hold.
pub proof fn law_reading_says_its_fields(reading: UpsReading)
    ensures
        reading@.input_voltage_v == reading.input_voltage_v,
        reading@.input_frequency_hz == reading.input_frequency_hz,
        reading@.output_voltage_v == reading.output_voltage_v,
        reading@.load_pct == reading.load_pct,
        reading@.battery_pct == reading.battery_pct,
        reading@.battery_voltage_v == reading.battery_voltage_v,
        reading@.runtime_s == reading.runtime_s,
        reading@.status is Some <==> reading.status is Some,
        reading.status is Some ==> reading@.status == Some(reading.status->0@),
        reading@.last_seen == reading.last_seen,
{
}

// ---------------------------------------------------------------------------
// Polls
// ---------------------------------------------------------------------------
/// How many of the last polls failed in a row.
pub open spec fn failed_in_a_row(polls: Seq<bool>) -> nat
    decreases polls.len(),
{
    if polls.len() == 0 || polls.last() {
        0
    } else {
        failed_in_a_row(polls.drop_last()) + 1
    }
}

/// The count of failures after a row of polls, from a fresh start.
pub open spec fn counted_failures(polls: Seq<bool>) -> u32
    decreases polls.len(),
{
    if polls.len() == 0 {
        0
    } else {
        failures_after(counted_failures(polls.drop_last()), polls.last())
    }
}

/// Over any row of polls the count is that of the failures in a row at its end, up to the
/// highest that it can hold.
pub proof fn law_failures_are_those_in_a_row(polls: Seq<bool>)
    ensures
        counted_failures(polls) == if failed_in_a_row(polls) <= u32::MAX {
            failed_in_a_row(polls) as int
        } else {
            u32::MAX as int
        },
    decreases polls.len(),
{
    if polls.len() > 0 {
        law_failures_are_those_in_a_row(polls.drop_last());
    }
}

/// A poll is told of when the supply comes back, with the number of polls that failed, and
/// when it stops answering; while it stays away that is told with the number so far, and
/// while it answers nothing is.
pub proof fn law_polls_tell_of_changes(failures: u32, answered: bool)
    ensures
        poll_note(failures, answered) is Quiet <==> answered && failures == 0,
        poll_note(failures, answered) == PollNote::Restored(failures) <==> answered && failures > 0,
        poll_note(failures, answered) is Lost <==> !answered && failures == 0,
        poll_note(failures, answered) == PollNote::StillLost(failures) <==> !answered && failures
            > 0,
{
}

} // verus!
