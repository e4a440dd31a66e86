//! The command interpreter: one command per run, dispatched over the
//! store, returning the lines to print.

use vstd::prelude::*;
use crate::cli::Command;
use crate::date::Timestamp;
use crate::errors::AppError;
use crate::store::{rows_with_prefix, Entry, RowV, Store};
use crate::text::{date_chars, format_date, format_timestamp, timestamp_chars};

verus! {

/// The confirmation printed after a successful `add`.
pub open spec fn added_line(task: Seq<char>) -> Seq<char> {
    "Task '"@ + task + "' logged successfully!"@
}

/// The header above a query's entries.
pub open spec fn header_line(prefix: Seq<char>) -> Seq<char> {
    "Tasks for "@ + prefix
}

/// One entry as a query prints it.
pub open spec fn entry_line(row: RowV) -> Seq<char> {
    row.0 + ": "@ + row.1
}

/// Everything a query prints: the header, then one line per matching
/// row, in stored order.
pub open spec fn query_output(rows: Seq<RowV>, prefix: Seq<char>) -> Seq<Seq<char>> {
    seq![header_line(prefix)] + rows_with_prefix(rows, prefix).map_values(|row: RowV| entry_line(row))
}

/// The views of the returned lines.
pub open spec fn lines_view(lines: Seq<String>) -> Seq<Seq<char>> {
    lines.map_values(|s: String| s@)
}

/// Run the matching query and render its output lines.
pub fn query_and_render(store: &Store, prefix: &String) -> (r: Result<Vec<String>, AppError>)
    requires
        store.ready(),
    ensures
        r matches Ok(lines) ==> lines_view(lines@) == query_output(store.rows(), prefix@),
        r matches Err(e) ==> e == AppError::QueryError,
{
    let entries = match store.query_by_date_prefix(prefix) {
        Ok(v) => v,
        Err(e) => {
            return Err(e);
        },
    };
    let mut lines: Vec<String> = Vec::new();
    let mut header = String::from_str("Tasks for ");
    header.append(prefix.as_str());
    lines.push(header);
    assert(lines_view(lines@) =~= seq![header_line(prefix@)]);
    let mut i: usize = 0;
    while i < entries.len()
        invariant
            i <= entries.len(),
            store.ready(),
            entries@.map_values(|e: Entry| e@) == rows_with_prefix(store.rows(), prefix@),
            lines_view(lines@) == seq![header_line(prefix@)] + entries@.take(i as int).map_values(|e: Entry| entry_line(e@)),
        decreases entries.len() - i,
    {
        let entry = &entries[i];
        let mut line = entry.date.clone();
        line.append(": ");
        line.append(entry.task.as_str());
        proof {
            assert(line@ == entry_line(entries@[i as int]@));
        }
        let ghost prev_lines = lines@;
        let ghost prev_view = lines_view(prev_lines);
        lines.push(line);
        proof {
            assert(lines_view(lines@) =~= prev_view.push(entry_line(entries@[i as int]@)));
            assert(entries@.take(i + 1) =~= entries@.take(i as int).push(entries@[i as int]));
            assert(entries@.take(i + 1).map_values(|e: Entry| entry_line(e@)) =~= entries@.take(i as int).map_values(|e: Entry| entry_line(e@)).push(entry_line(entries@[i as int]@)));
            assert(lines_view(lines@) =~= seq![header_line(prefix@)] + entries@.take(i + 1).map_values(|e: Entry| entry_line(e@)));
        }
        i += 1;
    }
    proof {
        assert(entries@.take(entries@.len() as int) =~= entries@);
        assert(entries@.map_values(|e: Entry| entry_line(e@)) =~= rows_with_prefix(store.rows(), prefix@).map_values(|row: RowV| entry_line(row)));
    }
    Ok(lines)
}

/// Interpret one command against the store, at the local time `now`.
///
/// `add` appends exactly one entry, stamped `now`, and echoes the text;
/// no other command changes the store in any way. The three query
/// commands return the header and the matching entries: `today` under
/// today's date, `yesterday` under the previous calendar day (an error
/// only when no such day exists), and `date` under the caller's own
/// prefix, taken as given.
pub fn run_command(store: &mut Store, cmd: &Command, now: &Timestamp) -> (r: Result<Vec<String>, AppError>)
    requires
        old(store).ready(),
        now.wf(),
    ensures
        final(store).ready(),
        !(cmd matches Command::Add { .. }) ==> *final(store) == *old(store),
        cmd matches Command::Add { task } ==> match r {
            Ok(lines) => final(store).rows() == old(store).rows().push((timestamp_chars(*now), task@)) && lines_view(lines@) == seq![added_line(task@)],
            Err(e) => e == AppError::WriteError && *final(store) == *old(store),
        },
        cmd matches Command::Today ==> match r {
            Ok(lines) => lines_view(lines@) == query_output(old(store).rows(), date_chars(now.date)),
            Err(e) => e == AppError::QueryError,
        },
        cmd matches Command::Yesterday ==> match r {
            Ok(lines) => !now.date.is_first_date() && lines_view(lines@) == query_output(old(store).rows(), date_chars(now.date.spec_prev())),
            Err(e) => if now.date.is_first_date() {
                e == AppError::DateComputationError
            } else {
                e == AppError::QueryError
            },
        },
        cmd matches Command::Date { date } ==> match r {
            Ok(lines) => lines_view(lines@) == query_output(old(store).rows(), date@),
            Err(e) => e == AppError::QueryError,
        },
{
    match cmd {
        Command::Add { task } => {
            let ts = format_timestamp(now);
            match store.insert(&ts, task) {
                Ok(_) => {
                    let mut line = String::from_str("Task '");
                    line.append(task.as_str());
                    line.append("' logged successfully!");
                    let mut lines: Vec<String> = Vec::new();
                    lines.push(line);
                    assert(lines_view(lines@) =~= seq![added_line(task@)]);
                    Ok(lines)
                },
                Err(e) => Err(e),
            }
        },
        Command::Today => {
            let prefix = format_date(&now.date);
            query_and_render(store, &prefix)
        },
        Command::Yesterday => {
            match now.date.prev_day() {
                Some(prev) => {
                    let prefix = format_date(&prev);
                    query_and_render(store, &prefix)
                },
                None => Err(AppError::DateComputationError),
            }
        },
        Command::Date { date } => query_and_render(store, date),
    }
}

} // verus!
