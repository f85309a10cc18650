//! The log of finished runs as text, and the series that the statistics
//! screen draws from the runs read back.

use crate::decimal::{
    decimal, figure, law_written_figure_reads_back, parse_figure, push_decimal,
};
use crate::record::TraceRun;
use crate::rows::{csv_rows, read_rows};
use vstd::prelude::*;
use vstd::string::{StrSliceExecFns, StringExecFns};

verus! {

/// The line of a run in the log: words per minute, accuracy, points and
/// seconds, with commas between them.
pub open spec fn csv_line(run: TraceRun) -> Seq<char> {
    decimal(run.wpm as int) + seq![','] + decimal(run.accuracy as int) + seq![','] + decimal(
        run.total_points as int,
    ) + seq![','] + decimal(run.seconds as int)
}

/// The first line of a log: the names of the four columns.
pub open spec fn log_header() -> Seq<char> {
    "wpm,accuracy,total_points,seconds"@
}

/// What a run adds to a log that exists: its line and a line end.
pub open spec fn log_entry(run: TraceRun) -> Seq<char> {
    csv_line(run).push('\n')
}

/// A log that begins with this run: the header line, then the run's.
pub open spec fn new_log(run: TraceRun) -> Seq<char> {
    log_header().push('\n') + log_entry(run)
}

/// What a run adds to the log: its entry where the log is present, a whole
/// new log where it is not.
pub open spec fn spec_log_addition(run: TraceRun, present: bool) -> Seq<char> {
    if present {
        log_entry(run)
    } else {
        new_log(run)
    }
}

impl TraceRun {
    /// The run's line in the log.
    pub fn to_csv(&self) -> (line: String)
        ensures
            line@ == csv_line(*self),
    {
        let mut line = String::new();
        push_decimal(&mut line, self.wpm);
        line.push(',');
        push_decimal(&mut line, self.accuracy);
        line.push(',');
        push_decimal(&mut line, self.total_points);
        line.push(',');
        push_decimal(&mut line, self.seconds);
        assert(line@ =~= csv_line(*self));
        line
    }
}

/// The text to add to the log for `run`: the run's line where the log
/// exists, and the header line before it where the log has to be made.
pub fn log_addition(run: &TraceRun, present: bool) -> (text: String)
    ensures
        text@ == spec_log_addition(*run, present),
{
    let mut text = String::new();
    if !present {
        text.append("wpm,accuracy,total_points,seconds");
        text.push('\n');
    }
    let line = run.to_csv();
    text.append(line.as_str());
    text.push('\n');
    assert(text@ =~= spec_log_addition(*run, present));
    text
}

/// Where the four figures stand in a row of the log.
#[derive(Clone, Copy, Debug, PartialEq, Eq, Structural)]
pub struct Columns {
    pub wpm: usize,
    pub accuracy: usize,
    pub total_points: usize,
    pub seconds: usize,
}

/// The index of the first of the first `n` fields of `header` that reads
/// `name`.
pub open spec fn first_named(header: Seq<Seq<char>>, name: Seq<char>, n: int) -> Option<usize>
    decreases n,
{
    if n <= 0 {
        None
    } else {
        match first_named(header, name, n - 1) {
            Some(i) => Some(i),
            None => if header[n - 1] == name {
                Some((n - 1) as usize)
            } else {
                None
            },
        }
    }
}

/// The column that the header row gives to `name`, if it names it.
pub open spec fn column(header: Seq<Seq<char>>, name: Seq<char>) -> Option<usize> {
    first_named(header, name, header.len() as int)
}

/// The columns of the four figures by the header row of a log, where it
/// names all four.
pub open spec fn columns_of(header: Seq<Seq<char>>) -> Option<Columns> {
    match (
        column(header, "wpm"@),
        column(header, "accuracy"@),
        column(header, "total_points"@),
        column(header, "seconds"@),
    ) {
        (Some(wpm), Some(accuracy), Some(total_points), Some(seconds)) => Some(
            Columns { wpm, accuracy, total_points, seconds },
        ),
        _ => None,
    }
}

/// The figure in field `i` of a row, where the row has the field and it
/// holds decimal text.
pub open spec fn field_of(row: Seq<Seq<char>>, i: usize) -> Option<i64> {
    if i < row.len() {
        figure(row[i as int])
    } else {
        None
    }
}

/// The run that a row stands for, where all four figures can be read.
pub open spec fn run_in(row: Seq<Seq<char>>, columns: Columns) -> Option<TraceRun> {
    match (
        field_of(row, columns.wpm),
        field_of(row, columns.accuracy),
        field_of(row, columns.total_points),
        field_of(row, columns.seconds),
    ) {
        (Some(wpm), Some(accuracy), Some(total_points), Some(seconds)) => Some(
            TraceRun { wpm, accuracy, total_points, seconds },
        ),
        _ => None,
    }
}

/// The runs in the rows behind the header row and before row `n`, in their
/// order. A row that came with an error, or that does not stand for a run,
/// is passed over.
pub open spec fn runs_in(rows: Seq<Option<Seq<Seq<char>>>>, columns: Columns, n: int) -> Seq<
    TraceRun,
>
    decreases n,
{
    if n <= 1 {
        Seq::empty()
    } else {
        let before = runs_in(rows, columns, n - 1);
        match rows[n - 1] {
            Some(row) => match run_in(row, columns) {
                Some(run) => before.push(run),
                None => before,
            },
            None => before,
        }
    }
}

/// The history that the rows of a log hold. The first row names the
/// columns; where there is none, or it came with an error, or it does not
/// name all four figures, the history is empty.
pub open spec fn runs_of(rows: Seq<Option<Seq<Seq<char>>>>) -> Seq<TraceRun> {
    if rows.len() == 0 {
        Seq::empty()
    } else {
        match rows[0] {
            Some(header) => match columns_of(header) {
                Some(columns) => runs_in(rows, columns, rows.len() as int),
                None => Seq::empty(),
            },
            None => Seq::empty(),
        }
    }
}

/// The fields of the header row that a new log begins with.
pub open spec fn header_fields() -> Seq<Seq<char>> {
    seq!["wpm"@, "accuracy"@, "total_points"@, "seconds"@]
}

/// The fields of the line that a run is written as.
pub open spec fn written_fields(run: TraceRun) -> Seq<Seq<char>> {
    seq![
        decimal(run.wpm as int),
        decimal(run.accuracy as int),
        decimal(run.total_points as int),
        decimal(run.seconds as int),
    ]
}

/// The header row of a new log names the four columns in the order in which
/// a run's line holds its figures, and a run read from the fields of its own
/// line is the run that was written.
pub proof fn law_written_row_reads_back(run: TraceRun)
    ensures
        columns_of(header_fields()) == Some(
            Columns { wpm: 0, accuracy: 1, total_points: 2, seconds: 3 },
        ),
        run_in(
            written_fields(run),
            Columns { wpm: 0, accuracy: 1, total_points: 2, seconds: 3 },
        ) == Some(run),
{
    reveal_strlit("wpm");
    reveal_strlit("accuracy");
    reveal_strlit("total_points");
    reveal_strlit("seconds");
    let header = header_fields();
    assert("wpm"@.len() == 3 && "accuracy"@.len() == 8 && "total_points"@.len() == 12
        && "seconds"@.len() == 7);
    reveal_with_fuel(first_named, 5);
    assert(column(header, "wpm"@) == Some(0usize));
    assert(column(header, "accuracy"@) == Some(1usize));
    assert(column(header, "total_points"@) == Some(2usize));
    assert(column(header, "seconds"@) == Some(3usize));
    law_written_figure_reads_back(run.wpm);
    law_written_figure_reads_back(run.accuracy);
    law_written_figure_reads_back(run.total_points);
    law_written_figure_reads_back(run.seconds);
}

/// A row of fields, looked at as plain text.
proof fn lemma_row_view(row: Vec<Vec<char>>, i: int)
    requires
        0 <= i < row@.len(),
    ensures
        row.deep_view().len() == row@.len(),
        row.deep_view()[i] == row@[i]@,
{
    assert(row@[i].deep_view() =~= row@[i]@);
}

/// Whether a field reads `name`.
fn same_text(text: &Vec<char>, name: &str) -> (same: bool)
    ensures
        same == (text@ == name@),
{
    let n = name.unicode_len();
    if text.len() != n {
        return false;
    }
    let mut i: usize = 0;
    while i < n
        invariant
            n == name@.len(),
            n == text@.len(),
            i <= n,
            forall|j: int| 0 <= j < i ==> text@[j] == name@[j],
        decreases n - i,
    {
        if text[i] != name.get_char(i) {
            return false;
        }
        i += 1;
    }
    assert(text@ =~= name@);
    true
}

/// Finds the first field of the header row that reads `name`.
fn find_column(header: &Vec<Vec<char>>, name: &str) -> (found: Option<usize>)
    ensures
        found == column(header.deep_view(), name@),
{
    let mut found: Option<usize> = None;
    let mut i: usize = 0;
    while i < header.len()
        invariant
            i <= header@.len(),
            header.deep_view().len() == header@.len(),
            found == first_named(header.deep_view(), name@, i as int),
        decreases header@.len() - i,
    {
        proof {
            lemma_row_view(*header, i as int);
        }
        if found.is_none() && same_text(&header[i], name) {
            found = Some(i);
        }
        i += 1;
    }
    found
}

/// Finds the columns of the four figures in the header row of a log.
pub fn read_columns(header: &Vec<Vec<char>>) -> (columns: Option<Columns>)
    ensures
        columns == columns_of(header.deep_view()),
{
    let wpm = find_column(header, "wpm");
    let accuracy = find_column(header, "accuracy");
    let total_points = find_column(header, "total_points");
    let seconds = find_column(header, "seconds");
    match (wpm, accuracy, total_points, seconds) {
        (Some(wpm), Some(accuracy), Some(total_points), Some(seconds)) => Some(
            Columns { wpm, accuracy, total_points, seconds },
        ),
        _ => None,
    }
}

/// Reads the figure in field `i` of a row.
fn read_field(row: &Vec<Vec<char>>, i: usize) -> (value: Option<i64>)
    ensures
        value == field_of(row.deep_view(), i),
{
    if i < row.len() {
        proof {
            lemma_row_view(*row, i as int);
        }
        parse_figure(&row[i])
    } else {
        None
    }
}

/// Reads the run that a row of the log stands for.
pub fn read_run(row: &Vec<Vec<char>>, columns: Columns) -> (run: Option<TraceRun>)
    ensures
        run == run_in(row.deep_view(), columns),
{
    let wpm = read_field(row, columns.wpm);
    let accuracy = read_field(row, columns.accuracy);
    let total_points = read_field(row, columns.total_points);
    let seconds = read_field(row, columns.seconds);
    match (wpm, accuracy, total_points, seconds) {
        (Some(wpm), Some(accuracy), Some(total_points), Some(seconds)) => Some(
            TraceRun { wpm, accuracy, total_points, seconds },
        ),
        _ => None,
    }
}

/// The history out of the rows of a log: the first row names the columns, a
/// row that cannot be read is passed over, and the others stay in the order
/// of the log.
pub fn runs_from_rows(rows: &Vec<Option<Vec<Vec<char>>>>) -> (records: Vec<TraceRun>)
    ensures
        records@ == runs_of(rows.deep_view()),
{
    let mut records: Vec<TraceRun> = Vec::new();
    if rows.len() == 0 {
        return records;
    }
    let columns = match &rows[0] {
        Some(header) => match read_columns(header) {
            Some(columns) => columns,
            None => { return records; },
        },
        None => { return records; },
    };
    let mut i: usize = 1;
    while i < rows.len()
        invariant
            1 <= i <= rows@.len(),
            rows.deep_view().len() == rows@.len(),
            records@ == runs_in(rows.deep_view(), columns, i as int),
        decreases rows@.len() - i,
    {
        assert(rows.deep_view()[i as int] == rows@[i as int].deep_view());
        match &rows[i] {
            Some(row) => match read_run(row, columns) {
                Some(run) => {
                    records.push(run);
                },
                None => {},
            },
            None => {},
        }
        i += 1;
    }
    records
}

/// The history that the bytes of a log hold.
pub fn get_track_record(log: &Vec<u8>) -> (records: Vec<TraceRun>)
    ensures
        records@ == runs_of(csv_rows(log@)),
{
    let rows = read_rows(log);
    runs_from_rows(&rows)
}

/// The figure of a run that a series follows.
#[derive(Clone, Copy, Debug, PartialEq, Eq, Structural)]
pub enum Metric {
    Points,
    Wpm,
    /// The accuracy in percent.
    Accuracy,
}

/// The value of a run in a series, in millionths.
pub open spec fn metric_value(run: TraceRun, metric: Metric) -> int {
    match metric {
        Metric::Points => run.total_points as int,
        Metric::Wpm => run.wpm as int,
        Metric::Accuracy => run.accuracy * 100,
    }
}

/// The series of one figure over the history: for each run, in the order of
/// the log, its number counted from zero and its value in millionths.
pub fn series(records: &Vec<TraceRun>, metric: Metric) -> (points: Vec<(usize, i128)>)
    ensures
        points@.len() == records@.len(),
        forall|i: int|
            0 <= i < records@.len() ==> (#[trigger] points@[i]).0 == i && points@[i].1
                == metric_value(records@[i], metric),
{
    let mut points: Vec<(usize, i128)> = Vec::new();
    let mut i: usize = 0;
    while i < records.len()
        invariant
            i <= records@.len(),
            points@.len() == i,
            forall|j: int|
                0 <= j < i ==> (#[trigger] points@[j]).0 == j && points@[j].1 == metric_value(
                    records@[j],
                    metric,
                ),
        decreases records@.len() - i,
    {
        let run = records[i];
        let value: i128 = match metric {
            Metric::Points => run.total_points as i128,
            Metric::Wpm => run.wpm as i128,
            Metric::Accuracy => run.accuracy as i128 * 100,
        };
        points.push((i, value));
        i += 1;
    }
    points
}

/// The height of the bar for a value in millionths: its whole part, and zero
/// for a negative value.
pub open spec fn spec_bar_height(value: int) -> int {
    if value <= 0 {
        0
    } else if value / 1_000_000 > u64::MAX {
        u64::MAX as int
    } else {
        value / 1_000_000
    }
}

/// The height of the bar that stands for `value`.
pub fn bar_height(value: i128) -> (height: u64)
    ensures
        height == spec_bar_height(value as int),
{
    if value <= 0 {
        0
    } else {
        let whole = (value as u128) / 1_000_000;
        if whole > u64::MAX as u128 {
            u64::MAX
        } else {
            whole as u64
        }
    }
}

/// The distance between two labels on the run axis of a chart over `count`
/// runs: a tenth of the runs, rounded down, and at least one.
pub open spec fn spec_label_step(count: int) -> int {
    if count / 10 == 0 {
        1
    } else {
        count / 10
    }
}

/// The distance between two labels on the run axis of a chart over `count`
/// runs.
pub fn label_step(count: usize) -> (step: usize)
    ensures
        step == spec_label_step(count as int),
        step >= 1,
{
    if count / 10 == 0 {
        1
    } else {
        count / 10
    }
}

/// The numbers below `n` that `step` divides, in rising order.
pub open spec fn multiples_below(step: int, n: int) -> Seq<usize>
    recommends
        step > 0,
    decreases n,
{
    if n <= 0 {
        Seq::empty()
    } else if (n - 1) % step == 0 {
        multiples_below(step, n - 1).push((n - 1) as usize)
    } else {
        multiples_below(step, n - 1)
    }
}

/// The run numbers that get a label on the run axis of a chart over `count`
/// runs: those below `count` that the label step divides, in rising order.
pub fn axis_labels(count: usize) -> (labels: Vec<usize>)
    ensures
        labels@ == multiples_below(spec_label_step(count as int), count as int),
{
    let step = label_step(count);
    let mut labels: Vec<usize> = Vec::new();
    let mut n: usize = 0;
    while n < count
        invariant
            step == spec_label_step(count as int),
            step >= 1,
            n <= count,
            labels@ == multiples_below(step as int, n as int),
        decreases count - n,
    {
        if n % step == 0 {
            labels.push(n);
        }
        n += 1;
    }
    labels
}

} // verus!
