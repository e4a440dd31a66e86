use did::cli::Command;
use did::clock::now_timestamp;
use did::date::{Date, TimeOfDay, Timestamp};
use did::errors::AppError;
use did::interp::run_command;
use did::store::{filter_rows_by_prefix, Store};

fn ts(year: i32, month: i32, day: i32, hour: i32, minute: i32, second: i32) -> Timestamp {
    Timestamp {
        date: Date::new(year, month, day).unwrap(),
        time: TimeOfDay { hour, minute, second },
    }
}

fn mem_store() -> Store {
    let mut store = Store::open(&":memory:".to_string()).unwrap();
    store.ensure_schema().unwrap();
    store
}

fn add(store: &mut Store, text: &str, at: &Timestamp) -> Vec<String> {
    run_command(store, &Command::Add { task: text.to_string() }, at).unwrap()
}

fn query(store: &mut Store, cmd: Command, at: &Timestamp) -> Vec<String> {
    run_command(store, &cmd, at).unwrap()
}

#[test]
fn scenario_add_then_query_by_date() {
    let mut store = mem_store();
    let at = ts(2024, 3, 5, 10, 0, 0);
    add(&mut store, "wrote design doc", &at);
    let out = query(&mut store, Command::Date { date: "2024-03-05".to_string() }, &at);
    assert!(out.contains(&"2024-03-05 10:00:00: wrote design doc".to_string()));
}

#[test]
fn add_confirms_and_query_returns_same_text() {
    let mut store = mem_store();
    let at = ts(2024, 3, 5, 10, 0, 0);
    let confirmation = add(&mut store, "fixed the build", &at);
    assert_eq!(confirmation, vec!["Task 'fixed the build' logged successfully!".to_string()]);
    let out = query(&mut store, Command::Today, &at);
    assert_eq!(
        out,
        vec![
            "Tasks for 2024-03-05".to_string(),
            "2024-03-05 10:00:00: fixed the build".to_string(),
        ]
    );
}

#[test]
fn today_and_date_of_today_agree() {
    let mut store = mem_store();
    let at = ts(2024, 3, 5, 10, 0, 0);
    add(&mut store, "one", &at);
    add(&mut store, "two", &ts(2024, 3, 5, 11, 30, 0));
    add(&mut store, "other day", &ts(2024, 3, 6, 9, 0, 0));
    let today = query(&mut store, Command::Today, &at);
    let by_date = query(&mut store, Command::Date { date: "2024-03-05".to_string() }, &at);
    assert_eq!(today, by_date);
    assert_eq!(today.len(), 3);
}

#[test]
fn queries_do_not_change_the_store() {
    let mut store = mem_store();
    let at = ts(2024, 3, 5, 10, 0, 0);
    add(&mut store, "one", &at);
    add(&mut store, "two", &ts(2024, 3, 5, 11, 0, 0));
    let before = query(&mut store, Command::Date { date: "".to_string() }, &at);
    query(&mut store, Command::Today, &at);
    query(&mut store, Command::Yesterday, &at);
    query(&mut store, Command::Date { date: "2024".to_string() }, &at);
    let after = query(&mut store, Command::Date { date: "".to_string() }, &at);
    assert_eq!(before, after);
    assert_eq!(after.len(), 3);
}

#[test]
fn yesterday_across_month_boundary() {
    let mut store = mem_store();
    add(&mut store, "leap day work", &ts(2024, 2, 29, 16, 0, 0));
    add(&mut store, "march work", &ts(2024, 3, 1, 9, 0, 0));
    let at = ts(2024, 3, 1, 12, 0, 0);
    let out = query(&mut store, Command::Yesterday, &at);
    assert_eq!(
        out,
        vec![
            "Tasks for 2024-02-29".to_string(),
            "2024-02-29 16:00:00: leap day work".to_string(),
        ]
    );
}

#[test]
fn yesterday_across_year_boundary() {
    let mut store = mem_store();
    add(&mut store, "year end", &ts(2022, 12, 31, 23, 0, 0));
    add(&mut store, "year start", &ts(2023, 1, 1, 0, 30, 0));
    let at = ts(2023, 1, 1, 8, 0, 0);
    let out = query(&mut store, Command::Yesterday, &at);
    assert_eq!(
        out,
        vec![
            "Tasks for 2022-12-31".to_string(),
            "2022-12-31 23:00:00: year end".to_string(),
        ]
    );
}

#[test]
fn yesterday_underflows_at_first_date() {
    let mut store = mem_store();
    let at = ts(1, 1, 1, 8, 0, 0);
    let r = run_command(&mut store, &Command::Yesterday, &at);
    assert_eq!(r, Err(AppError::DateComputationError));
}

#[test]
fn month_prefix_selects_whole_month() {
    let mut store = mem_store();
    let at = ts(2024, 2, 15, 12, 0, 0);
    add(&mut store, "early january", &ts(2024, 1, 5, 9, 0, 0));
    add(&mut store, "late january", &ts(2024, 1, 31, 22, 0, 0));
    add(&mut store, "february", &ts(2024, 2, 1, 8, 0, 0));
    add(&mut store, "january of another year", &ts(2023, 1, 10, 10, 0, 0));
    let out = query(&mut store, Command::Date { date: "2024-01".to_string() }, &at);
    assert_eq!(
        out,
        vec![
            "Tasks for 2024-01".to_string(),
            "2024-01-05 09:00:00: early january".to_string(),
            "2024-01-31 22:00:00: late january".to_string(),
        ]
    );
}

#[test]
fn query_on_empty_store_prints_header_only() {
    let mut store = mem_store();
    let at = ts(2024, 3, 5, 10, 0, 0);
    let out = query(&mut store, Command::Today, &at);
    assert_eq!(out, vec!["Tasks for 2024-03-05".to_string()]);
}

#[test]
fn entries_keep_insertion_order() {
    let mut store = mem_store();
    let at = ts(2024, 3, 5, 23, 59, 59);
    add(&mut store, "b", &ts(2024, 3, 5, 9, 0, 0));
    add(&mut store, "a", &ts(2024, 3, 5, 8, 0, 0));
    let out = query(&mut store, Command::Today, &at);
    assert_eq!(
        out,
        vec![
            "Tasks for 2024-03-05".to_string(),
            "2024-03-05 09:00:00: b".to_string(),
            "2024-03-05 08:00:00: a".to_string(),
        ]
    );
}

#[test]
fn filter_keeps_matches_in_order() {
    let rows = vec![
        ("2024-01-05 09:00:00".to_string(), "x".to_string()),
        ("2024-02-01 08:00:00".to_string(), "y".to_string()),
        ("2024-01-31 22:00:00".to_string(), "z".to_string()),
    ];
    let kept = filter_rows_by_prefix(&rows, &"2024-01".to_string());
    assert_eq!(kept.len(), 2);
    assert_eq!(kept[0].date, "2024-01-05 09:00:00");
    assert_eq!(kept[0].task, "x");
    assert_eq!(kept[1].date, "2024-01-31 22:00:00");
    assert_eq!(kept[1].task, "z");
}

#[test]
fn open_fails_in_missing_directory() {
    let r = Store::open(&"/no-such-directory-anywhere/sub/did.db".to_string());
    assert!(matches!(r, Err(AppError::StorageUnavailable)));
}

#[test]
fn insert_and_query_fail_on_unusable_table() {
    let path = "/tmp/did_test_unusable_table.db";
    let conn = rusqlite::Connection::open(path).unwrap();
    conn.execute_batch("DROP TABLE IF EXISTS tasks; CREATE TABLE tasks (foo INTEGER);").unwrap();
    drop(conn);
    let mut store = Store::open(&path.to_string()).unwrap();
    store.ensure_schema().unwrap();
    let at = ts(2024, 3, 5, 10, 0, 0);
    let w = run_command(&mut store, &Command::Add { task: "x".to_string() }, &at);
    assert_eq!(w, Err(AppError::WriteError));
    let q = run_command(&mut store, &Command::Today, &at);
    assert_eq!(q, Err(AppError::QueryError));
}

#[test]
fn clock_yields_a_plausible_timestamp() {
    let now = now_timestamp().unwrap();
    assert!(now.date.year >= 2020 && now.date.year <= 9999);
    assert!(now.date.month >= 1 && now.date.month <= 12);
    assert!(now.date.day >= 1 && now.date.day <= 31);
    assert!(now.time.hour <= 23 && now.time.minute <= 59 && now.time.second <= 59);
    let formatted = did::text::format_timestamp(&now);
    assert_eq!(formatted.len(), 19);
}
