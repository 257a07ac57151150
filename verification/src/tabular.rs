//! Tasks as a table, for export.
use crate::store::TaskRecord;
use crate::text::{decimal, i64_to_string, signed_decimal, strings_view, two_digits, u64_to_string};
use crate::time::{SystemTime, MAX_SECS};
use crate::util::{datestring, dur, iso_date, stored};
use vstd::prelude::*;

verus! {

/// The number `n` in at least two places: with a zero in front where it
/// has one digit, with its sign where it is negative.
pub open spec fn two_places(n: int) -> Seq<char> {
    if n < 0 {
        signed_decimal(n)
    } else {
        two_digits(n as nat)
    }
}

/// The quotient of `a` by `b` without its fraction: rounded towards zero.
pub open spec fn quotient(a: int, b: int) -> int {
    if a >= 0 {
        a / b
    } else {
        -((-a) / b)
    }
}

/// The span of `millis` milliseconds as hours and minutes. The minutes
/// count on from the hours; where there is no whole hour, or the span is
/// negative, they count from nothing.
pub open spec fn duration_time(millis: int) -> Seq<char> {
    let minutes = quotient(quotient(millis, 1000), 60);
    let hours = quotient(minutes, 60);
    let remaining_minutes = if hours > 0 {
        minutes % (hours * 60)
    } else {
        minutes
    };
    two_places(hours) + ":"@ + two_places(remaining_minutes) + ":00"@
}

/// The number `n` in at least two places.
fn two_places_string(n: i64) -> (text: String)
    ensures
        text@ == two_places(n as int),
{
    if n < 0 {
        i64_to_string(n)
    } else {
        crate::text::two_digit_string(n as u64)
    }
}

/// The span of `millis` milliseconds as hours and minutes.
pub fn format_duration_time(millis: i64) -> (text: String)
    ensures
        text@ == duration_time(millis as int),
{
    let minutes: i64 = if millis >= 0 {
        millis / 1000 / 60
    } else {
        let up: i128 = -(millis as i128);
        -((up / 1000 / 60) as i64)
    };
    let hours: i64 = if minutes >= 0 {
        minutes / 60
    } else {
        -((-minutes) / 60)
    };
    let remaining_minutes: i64 = if hours > 0 {
        minutes % (hours * 60)
    } else {
        minutes
    };
    let mut text = two_places_string(hours);
    text.append(":");
    text.append(two_places_string(remaining_minutes).as_str());
    text.append(":00");
    text
}

/// The row of the task `record`: who, the project, the task, the day
/// `date` on which it started, how long it took as hours and minutes, and
/// the same as the number `decimal`.
pub open spec fn table_row(record: TaskRecord, date: Seq<char>, decimal: Seq<char>) -> Seq<
    Seq<char>,
> {
    seq![
        record.username@,
        record.project@,
        record.task@,
        date,
        duration_time(stored(record.end_time.elapsed_since(record.start_time).millis)),
        decimal,
    ]
}

/// What rows of texts say.
pub open spec fn rows_view(rows: Seq<Vec<String>>) -> Seq<Seq<Seq<char>>> {
    rows.map_values(|r: Vec<String>| strings_view(r@))
}

/// The row of the task `record` on a clock `offset` seconds ahead of UTC:
/// [`table_row`] with the day on which the task started on that clock.
pub open spec fn dated_row(record: TaskRecord, offset: i32, decimal: Seq<char>) -> Seq<Seq<char>> {
    table_row(record, iso_date((record.start_time.millis / 1000) as i64, offset), decimal)
}

/// Each of `records` has its clock among `offsets`, and started at a time
/// that calendars can name.
pub open spec fn can_date(records: Seq<TaskRecord>, offsets: Seq<i32>) -> bool {
    &&& records.len() == offsets.len()
    &&& forall|i: int|
        0 <= i < records.len() ==> (#[trigger] records[i]).start_time.millis / 1000 <= MAX_SECS
    &&& forall|i: int| 0 <= i < offsets.len() ==> -86_400 < #[trigger] offsets[i] < 86_400
}

/// The rows of the tasks `records`, one for each: see [`dated_row`].
pub open spec fn table_rows(records: Seq<TaskRecord>, offsets: Seq<i32>, decimals: Seq<String>) -> Seq<
    Seq<Seq<char>>,
> {
    Seq::new(records.len(), |i: int| dated_row(records[i], offsets[i], decimals[i]@))
}

/// The tasks `records` as a table, a row for each. `offsets` holds for each
/// task how far ahead of UTC, in seconds, the clock is on which its day is
/// read, `decimals` how long each took as a number of hours.
pub fn make_table(records: &Vec<TaskRecord>, offsets: &Vec<i32>, decimals: &Vec<String>) -> (table:
    Vec<Vec<String>>)
    requires
        can_date(records@, offsets@),
        records.len() == decimals.len(),
    ensures
        rows_view(table@) == table_rows(records@, offsets@, decimals@),
{
    let mut table: Vec<Vec<String>> = Vec::new();
    let mut i: usize = 0;
    while i < records.len()
        invariant
            i <= records.len(),
            can_date(records@, offsets@),
            records.len() == decimals.len(),
            table.len() == i,
            forall|j: int|
                0 <= j < i ==> strings_view((#[trigger] table@[j])@) == dated_row(
                    records@[j],
                    offsets@[j],
                    decimals@[j]@,
                ),
        decreases records.len() - i,
    {
        let record = &records[i];
        let duration = dur(&record.end_time.since_or_zero(&record.start_time));
        let row = vec![
            record.username.clone(),
            record.project.clone(),
            record.task.clone(),
            datestring(&record.start_time, offsets[i]),
            format_duration_time(duration),
            decimals[i].clone(),
        ];
        assert(strings_view(row@) =~= dated_row(*record, offsets@[i as int], decimals@[i as int]@));
        table.push(row);
        i = i + 1;
    }
    proof {
        assert(rows_view(table@) =~= table_rows(records@, offsets@, decimals@));
    }
    table
}

/// The titles of the columns of the table.
pub fn table_header() -> (header: Vec<String>)
    ensures
        strings_view(header@) == seq![
            "username"@,
            "project"@,
            "task"@,
            "date"@,
            "duration (time)"@,
            "duration (decimal)"@,
        ],
{
    let header = vec![
        String::from_str("username"),
        String::from_str("project"),
        String::from_str("task"),
        String::from_str("date"),
        String::from_str("duration (time)"),
        String::from_str("duration (decimal)"),
    ];
    assert(strings_view(header@) =~= seq![
        "username"@,
        "project"@,
        "task"@,
        "date"@,
        "duration (time)"@,
        "duration (decimal)"@,
    ]);
    header
}

/// The test whether a task starts after `start` and ends at `end` or
/// before.
pub open spec fn in_span(start: SystemTime, end: SystemTime) -> spec_fn(TaskRecord) -> bool {
    |task: TaskRecord| task.start_time.millis > start.millis && task.end_time.millis <= end.millis
}

/// The tasks of `tasks` that start after `start` and end at `end` or
/// before, in the order of `tasks`.
pub fn collect_records(tasks: Vec<TaskRecord>, start: SystemTime, end: SystemTime) -> (kept: Vec<
    TaskRecord,
>)
    ensures
        kept@ == tasks@.filter(in_span(start, end)),
{
    let mut kept: Vec<TaskRecord> = Vec::new();
    proof {
        reveal(Seq::filter);
        assert(tasks@.take(0).filter(in_span(start, end)) =~= kept@);
    }
    for task in it: tasks
        invariant
            kept@ == it.seq().take(it.index() as int).filter(in_span(start, end)),
            it.seq() == tasks@,
    {
        proof {
            reveal(Seq::filter);
            let i = it.index() as int;
            assert(tasks@.take(i + 1).drop_last() =~= tasks@.take(i));
            assert(tasks@.take(i + 1).last() == task);
        }
        if task.start_time.millis > start.millis && task.end_time.millis <= end.millis {
            kept.push(task);
        }
    }
    proof {
        assert(tasks@.take(tasks@.len() as int) =~= tasks@);
    }
    kept
}

// ---------------------------------------------------------------------------
// The table as text

/// A `csv::Writer` that writes into memory.
#[verifier::external_body]
pub struct CsvWriter {
    inner: csv::Writer<Vec<u8>>,
}

/// The records that were written to `w`, each a sequence of fields.
pub uninterp spec fn written(w: CsvWriter) -> Seq<Seq<Seq<char>>>;

/// The comma-separated text of `records`, as `csv` writes them.
pub uninterp spec fn csv_text(records: Seq<Seq<Seq<char>>>) -> Seq<u8>;

/// A writer that has taken `records` takes `record` too: it is the first,
/// or has as many fields as the first.
pub open spec fn accepted(records: Seq<Seq<Seq<char>>>, record: Seq<Seq<char>>) -> bool {
    records.len() == 0 || record.len() == records[0].len()
}

/// A writer to which nothing was written yet: `csv::Writer::from_writer`
/// on an empty buffer.
#[verifier::external_body]
fn csv_writer() -> (w: CsvWriter)
    ensures
        written(w) == Seq::<Seq<Seq<char>>>::empty(),
{
    CsvWriter { inner: csv::Writer::from_writer(Vec::new()) }
}

/// Writes `record` to `w` with `csv::Writer::write_record`, and hands the
/// writer back where that succeeds; the record is then the last of those
/// written. The writer writes into memory, where nothing fails, so it
/// refuses a record only for its number of fields: see [`accepted`].
#[verifier::external_body]
fn csv_write(w: CsvWriter, record: &Vec<String>) -> (next: Option<CsvWriter>)
    ensures
        next is Some <==> accepted(written(w), strings_view(record@)),
        next matches Some(n) ==> written(n) == written(w).push(strings_view(record@)),
{
    let mut w = w;
    w.inner.write_record(record).ok().map(|_| w)
}

/// The bytes that `w` has written, from `csv::Writer::into_inner`: the
/// text of the records that were written. The writer writes into memory,
/// where nothing fails, so it always hands them back.
#[verifier::external_body]
fn csv_finish(w: CsvWriter) -> (bytes: Option<Vec<u8>>)
    ensures
        bytes is Some,
        bytes matches Some(b) ==> b@ == csv_text(written(w)),
{
    w.inner.into_inner().ok()
}

/// The table of the tasks `records`: the titles of the columns, then a row
/// for each task.
pub open spec fn csv_table(records: Seq<TaskRecord>, offsets: Seq<i32>, decimals: Seq<String>) -> Seq<
    Seq<Seq<char>>,
> {
    seq![
        seq![
            "username"@,
            "project"@,
            "task"@,
            "date"@,
            "duration (time)"@,
            "duration (decimal)"@,
        ],
    ] + table_rows(records, offsets, decimals)
}

/// The tasks `records` as comma-separated text, under the titles of the
/// columns. `offsets` holds for each task how far ahead of UTC, in seconds,
/// the clock is on which its day is read, `decimals` how long each took as
/// a number of hours.
pub fn to_csv(records: &Vec<TaskRecord>, offsets: &Vec<i32>, decimals: &Vec<String>) -> (bytes:
    Option<Vec<u8>>)
    requires
        can_date(records@, offsets@),
        records.len() == decimals.len(),
    ensures
        bytes matches Some(b) && b@ == csv_text(csv_table(records@, offsets@, decimals@)),
{
    let table = make_table(records, offsets, decimals);
    let header = table_header();
    let ghost all = csv_table(records@, offsets@, decimals@);
    assert(all =~= seq![strings_view(header@)] + rows_view(table@));
    let mut writer = match csv_write(csv_writer(), &header) {
        Some(w) => w,
        None => {
            return None;
        },
    };
    let mut i: usize = 0;
    assert(written(writer) =~= all.take(1));
    while i < table.len()
        invariant
            i <= table.len(),
            all == csv_table(records@, offsets@, decimals@),
            all == seq![strings_view(header@)] + rows_view(table@),
            rows_view(table@) == table_rows(records@, offsets@, decimals@),
            written(writer) == all.take(i + 1),
        decreases table.len() - i,
    {
        assert(all[i + 1] == strings_view(table@[i as int]@));
        assert(all[i + 1] == table_rows(records@, offsets@, decimals@)[i as int]);
        assert(all.take(i + 1)[0] == all[0]);
        writer = match csv_write(writer, &table[i]) {
            Some(w) => w,
            None => {
                return None;
            },
        };
        assert(written(writer) =~= all.take(i + 2));
        i = i + 1;
    }
    assert(all.take(i + 1) =~= all);
    csv_finish(writer)
}

} // verus!
