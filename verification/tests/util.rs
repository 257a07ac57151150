use pearls::store::StoreError;
use pearls::tabular::{collect_records, format_duration_time, make_table, table_header};
use pearls::text::{i64_to_string, join, two_digit_string, u128_to_string, u64_to_string};
use pearls::time::{Duration, LocalTime, SystemTime};
use pearls::store::TaskRecord;
use pearls::helpers::duration_to_hour;
use pearls::util::{
    date_time_from_st, display_username, dur, dur_from_ts, human_duration, human_ts,
    make_table_row, split, st_from_date_time, st_from_ts, st_to_datestring, ts,
};

#[test]
fn the_store_writes_times_as_milliseconds() {
    assert_eq!(st_from_ts(1_500), SystemTime { millis: 1_500 });
    assert_eq!(dur_from_ts(0), Duration { millis: 0 });
    assert_eq!(ts(&SystemTime { millis: 1_500 }), 1_500);
    assert_eq!(dur(&Duration { millis: 42 }), 42);
    assert_eq!(dur(&Duration { millis: u64::MAX }), i64::MAX);
    assert_eq!(ts(&SystemTime { millis: i64::MAX as u64 + 1 }), i64::MAX);
    assert_eq!(ts(&st_from_ts(i64::MAX)), i64::MAX);
}

#[test]
fn durations_and_times_count_in_whole_seconds() {
    assert_eq!(Duration::from_secs(5), Duration { millis: 5_000 });
    assert_eq!(Duration::from_millis(5_999).as_secs(), 5);
    assert_eq!(Duration::from_millis(5_999).as_millis(), 5_999);
    let early = SystemTime { millis: 1_000 };
    let late = SystemTime { millis: 3_500 };
    assert_eq!(late.duration_since(&early), Some(Duration { millis: 2_500 }));
    assert_eq!(early.duration_since(&late), None);
    assert_eq!(early.since_or_zero(&late), Duration { millis: 0 });
    assert_eq!(SystemTime::from_epoch(Duration::from_secs(2)), SystemTime { millis: 2_000 });
}

#[test]
fn local_times_are_to_the_second() {
    let dt = date_time_from_st(&SystemTime { millis: 1_592_179_200_999 });
    assert_eq!(dt.secs, 1_592_179_200);
    assert!(-86_400 < dt.offset && dt.offset < 86_400);
    assert_eq!(st_from_date_time(&dt), SystemTime { millis: 1_592_179_200_000 });
    assert_eq!(
        st_from_date_time(&LocalTime { secs: -5, offset: 0 }),
        SystemTime { millis: u64::MAX }
    );
    assert!(LocalTime { secs: 1, offset: 0 }.before(&LocalTime { secs: 2, offset: 3_600 }));
}

#[test]
fn durations_are_put_in_words() {
    assert_eq!(human_duration(Duration::from_secs(3 * 3_600 + 30 * 60)), "3 hours and 30 minutes");
    assert_eq!(human_duration(Duration::from_secs(60)), "1 minute");
    assert_eq!(human_duration(Duration::from_secs(0)), "0 seconds");
    assert_eq!(human_duration(Duration::from_millis(1_500)), "1 second and 500 ms");
    assert_eq!(human_ts(90_000), "1 minute and 30 seconds");
    assert_eq!(human_ts(-5), "0 seconds");
}

#[test]
fn dates_are_written_year_first() {
    // noon UTC is the same day in most of the world; the day is checked
    // through the offset that the clock reports
    let t = SystemTime { millis: 1_592_222_400_000 };
    let dt = date_time_from_st(&t);
    let text = st_to_datestring(&t);
    let zone = chrono::FixedOffset::east_opt(dt.offset).unwrap();
    let expected = chrono::DateTime::from_timestamp(dt.secs, 0)
        .unwrap()
        .with_timezone(&zone)
        .format("%Y-%m-%d")
        .to_string();
    assert_eq!(text, expected);
    assert_eq!(text.len(), 10);
    assert_eq!(pearls::util::datestring(&t, 0), "2020-06-15");
    assert_eq!(pearls::util::datestring(&SystemTime { millis: 1_592_179_199_999 }, 0), "2020-06-14");
    assert_eq!(pearls::util::datestring(&SystemTime { millis: 1_592_179_199_999 }, 1), "2020-06-15");
    assert_eq!(pearls::util::format_date(&t, 0), "15 June 2020");
    assert_eq!(pearls::util::format_date(&SystemTime { millis: 1_583_712_061_000 }, 0), " 9 March 2020");
}

#[test]
fn usernames_are_shown_up_to_the_first_colon() {
    assert_eq!(display_username("@alice:matrix.org"), "@alice");
    assert_eq!(display_username("bob"), "bob");
    assert_eq!(display_username(":x"), "");
    assert_eq!(display_username("a:b:c"), "a");
    assert_eq!(display_username(""), "");
    assert_eq!(display_username("é:ü"), "é");
}

#[test]
fn split_takes_pairs_apart() {
    let pairs = vec![
        (String::from("a"), String::from("1")),
        (String::from("b"), String::from("2")),
    ];
    assert_eq!(split(pairs), (vec![String::from("a"), String::from("b")], vec![String::from("1"), String::from("2")]));
    assert_eq!(split(vec![]), (Vec::<String>::new(), Vec::<String>::new()));
}

#[test]
fn a_table_row_has_a_cell_for_each_text() {
    let row = make_table_row(vec![String::from("a"), String::from("b")]);
    assert_eq!(row.as_string(), "<tr><td>a</td>\n<td>b</td></tr>");
    assert_eq!(make_table_row(vec![]).as_string(), "<tr></tr>");
}

#[test]
fn numbers_are_written_in_decimal() {
    assert_eq!(u64_to_string(0), "0");
    assert_eq!(u64_to_string(7), "7");
    assert_eq!(u64_to_string(1_234_567_890), "1234567890");
    assert_eq!(u64_to_string(u64::MAX), "18446744073709551615");
    assert_eq!(u128_to_string(u128::MAX), "340282366920938463463374607431768211455");
    assert_eq!(i64_to_string(-1), "-1");
    assert_eq!(i64_to_string(i64::MIN), "-9223372036854775808");
    assert_eq!(i64_to_string(i64::MAX), "9223372036854775807");
    assert_eq!(two_digit_string(0), "00");
    assert_eq!(two_digit_string(9), "09");
    assert_eq!(two_digit_string(10), "10");
    assert_eq!(two_digit_string(123), "123");
}

#[test]
fn join_puts_the_separator_between_texts() {
    assert_eq!(join(&vec![], ", "), "");
    assert_eq!(join(&vec![String::from("a")], ", "), "a");
    assert_eq!(join(&vec![String::from("a"), String::from(""), String::from("c")], ", "), "a, , c");
}

#[test]
fn store_errors_have_their_words() {
    assert_eq!(StoreError::Open(String::from("x.db")).to_string(), "Failed to open connection to x.db");
    assert_eq!(
        StoreError::Connected(String::from("x.db")).to_string(),
        "Failed to get a connection to x.db"
    );
    assert_eq!(StoreError::LogRecord.to_string(), "Failed to log record");
    assert_eq!(StoreError::Iter.to_string(), "Failed to iterate");
    assert_eq!(StoreError::Get.to_string(), "Failed to get a record");
    assert_eq!(
        StoreError::Lock.to_string(),
        "Rather obscure, but somewhere we failed to obtain a lock on a mutex..."
    );
}

#[test]
fn durations_are_written_as_hours_and_minutes() {
    assert_eq!(format_duration_time(0), "00:00:00");
    assert_eq!(format_duration_time(59_999), "00:00:00");
    assert_eq!(format_duration_time(60_000), "00:01:00");
    assert_eq!(format_duration_time(3_600_000), "01:00:00");
    assert_eq!(format_duration_time(5_400_000), "01:30:00");
    assert_eq!(format_duration_time(2 * 3_600_000 + 5 * 60_000), "02:05:00");
    assert_eq!(format_duration_time(100 * 3_600_000 + 59 * 60_000), "100:59:00");
    assert_eq!(format_duration_time(-120_000), "00:-2:00");
    assert_eq!(format_duration_time(-2 * 3_600_000), "-2:-120:00");
}

#[test]
fn tasks_make_rows_of_six_columns() {
    let records = vec![TaskRecord {
        id: 1,
        username: String::from("u"),
        start_time: SystemTime { millis: 0 },
        end_time: SystemTime { millis: 5_400_000 },
        project: String::from("c/p"),
        task: String::from("t"),
    }];
    let table = make_table(&records, &vec![0], &vec![String::from("1.50")]);
    assert_eq!(table, vec![vec!["u", "c/p", "t", "1970-01-01", "01:30:00", "1.50"]]);
    // an hour behind UTC the epoch falls on the day before
    let table = make_table(&records, &vec![-3_600], &vec![String::from("1.50")]);
    assert_eq!(table[0][3], "1969-12-31");
    assert_eq!(
        table_header(),
        vec!["username", "project", "task", "date", "duration (time)", "duration (decimal)"]
    );
}

#[test]
fn records_are_kept_that_start_after_the_start_and_end_by_the_end() {
    let rec = |start: u64, end: u64| TaskRecord {
        id: start as i64,
        username: String::from("u"),
        start_time: SystemTime { millis: start },
        end_time: SystemTime { millis: end },
        project: String::from("c/p"),
        task: String::from("t"),
    };
    let kept = collect_records(
        vec![rec(10, 20), rec(11, 30), rec(11, 31), rec(5, 20), rec(29, 30)],
        SystemTime { millis: 10 },
        SystemTime { millis: 30 },
    );
    let ids: Vec<i64> = kept.iter().map(|r| r.id).collect();
    assert_eq!(ids, vec![11, 29]);
}

#[test]
fn a_second_short_of_an_hour_counts_as_the_hour() {
    assert_eq!(duration_to_hour(Duration::from_secs(3_599)), 1);
    assert_eq!(duration_to_hour(Duration::from_secs(3_598)), 0);
    assert_eq!(duration_to_hour(Duration::from_secs(7_199)), 2);
}

#[test]
fn the_table_is_written_as_comma_separated_text() {
    let records = vec![TaskRecord {
        id: 1,
        username: String::from("u, the first"),
        start_time: SystemTime { millis: 0 },
        end_time: SystemTime { millis: 5_400_000 },
        project: String::from("c/p"),
        task: String::from("t"),
    }];
    let bytes = pearls::tabular::to_csv(&records, &vec![0], &vec![String::from("1.50")]);
    assert_eq!(
        String::from_utf8(bytes.unwrap()).unwrap(),
        "username,project,task,date,duration (time),duration (decimal)\n\"u, the first\",c/p,t,1970-01-01,01:30:00,1.50\n"
    );
}

#[test]
fn a_table_without_tasks_is_its_titles() {
    let bytes = pearls::tabular::to_csv(&vec![], &vec![], &vec![]);
    assert_eq!(
        String::from_utf8(bytes.unwrap()).unwrap(),
        "username,project,task,date,duration (time),duration (decimal)\n"
    );
}

#[test]
fn a_table_has_a_line_for_each_task_in_their_order() {
    let task = |user: &str, start: u64, end: u64| pearls::store::TaskRecord {
        id: 1,
        username: String::from(user),
        start_time: pearls::time::SystemTime { millis: start },
        end_time: pearls::time::SystemTime { millis: end },
        project: String::from("c/p"),
        task: String::from("say \"hi\""),
    };
    let records = vec![task("u", 0, 3_600_000), task("v", 0, 60_000)];
    let bytes = pearls::tabular::to_csv(
        &records,
        &vec![0, 86_399],
        &vec![String::from("1.00"), String::from("0.01")],
    );
    let text = String::from_utf8(bytes.unwrap()).unwrap();
    let lines: Vec<&str> = text.lines().collect();
    assert_eq!(lines.len(), 3);
    assert_eq!(lines[0], "username,project,task,date,duration (time),duration (decimal)");
    assert!(lines[1].starts_with("u,c/p,\"say \"\"hi\"\"\",1970-01-01,"));
    assert!(lines[1].ends_with(",1.00"));
    assert!(lines[2].starts_with("v,c/p,\"say \"\"hi\"\"\",1970-01-01,"));
    assert!(lines[2].ends_with(",0.01"));
}
