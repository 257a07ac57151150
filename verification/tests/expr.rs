use pearls::expr::{date, parse_command, parse_command_at, project_ident, Command};
use pearls::parser_ext::ParseCommandError;
use pearls::time::{Duration, SystemTime};
use pearls::util::st_from_ts;

// 2020-06-15 12:00:00 UTC
const NOW: SystemTime = SystemTime { millis: 1_592_222_400_000 };

#[test]
fn parse_error_is_nice() {
    let expected = String::from("Command does not exists");
    let result = match parse_command("!truc") {
        Ok(_) => String::from("Should not be OK"),
        Err(err) => format!("{}", err.to_string()),
    };

    assert_eq!(result, expected);
}

#[test]
fn parse_do_ok() {
    let expected: Result<Command, ParseCommandError> = Ok(Command::Do(
        "foo/0".into(),
        "dev".into(),
        Duration::from_secs(3 * 60 * 60 + (30 * 60)),
    ));
    assert_eq!(
        parse_command("!do foo/0 dev 3h 30m").is_ok(),
        expected.is_ok()
    );
}

#[test]
fn parse_new_ok() {
    assert_eq!(
        parse_command("!new ac/bot"),
        Ok(Command::Add("ac/bot".into(),))
    );
}

#[test]
fn parse_project_ident() {
    assert_eq!(project_ident("ac/bot"), Ok(String::from("ac/bot")));
}

#[test]
fn parse_project_ident_fail() {
    assert_eq!(
        project_ident("ac-bot"),
        Err(ParseCommandError::ProjectIdentFormat)
    );
}

#[test]
fn parse_date_iso() {
    let expected = chrono::NaiveDate::from_ymd_opt(2042, 05, 29)
        .unwrap()
        .and_hms_opt(0, 1, 1)
        .unwrap()
        .and_utc()
        .timestamp_millis();
    assert_eq!(date("2042-05-29", NOW), Ok(st_from_ts(expected)));
}

#[test]
fn parse_date_fancy() {
    let expected = chrono::NaiveDate::from_ymd_opt(2042, 05, 29)
        .unwrap()
        .and_hms_opt(0, 1, 1)
        .unwrap()
        .and_utc()
        .timestamp_millis();
    assert_eq!(date("29/05/2042", NOW), Ok(st_from_ts(expected)));
}

#[test]
fn a_date_without_year_is_of_the_current_year() {
    // 2020-03-09 00:01:01 UTC
    assert_eq!(date("09.03", NOW), Ok(SystemTime { millis: 1_583_712_061_000 }));
    assert_eq!(date("09-03-2020", NOW), Ok(SystemTime { millis: 1_583_712_061_000 }));
    assert_eq!(date("2020 03 09", NOW), Ok(SystemTime { millis: 1_583_712_061_000 }));
}

#[test]
fn dates_that_do_not_exist_or_lie_before_the_epoch_are_refused() {
    assert_eq!(date("2020-02-30", NOW), Err(ParseCommandError::DateFormat));
    assert_eq!(date("1969-12-31", NOW), Err(ParseCommandError::DateFormat));
    assert_eq!(date("tomorrow", NOW), Err(ParseCommandError::DateFormat));
    assert_eq!(date("31-13", NOW), Err(ParseCommandError::DateFormat));
}

#[test]
fn do_takes_project_task_and_duration() {
    assert_eq!(
        parse_command_at("!do foo/0 dev 3h 30m", NOW),
        Ok(Command::Do("foo/0".into(), "dev".into(), Duration::from_secs(12_600)))
    );
    assert_eq!(
        parse_command_at("!done a.b/c_d x-y \t 45min", NOW),
        Ok(Command::Done("a.b/c_d".into(), "x-y".into(), Duration::from_secs(2_700)))
    );
}

#[test]
fn commands_without_arguments_are_read_by_their_names() {
    assert_eq!(parse_command_at("!ping", NOW), Ok(Command::Ping));
    assert_eq!(parse_command_at("!ping  ", NOW), Ok(Command::Ping));
    assert_eq!(parse_command_at("!help", NOW), Ok(Command::Help));
    assert_eq!(parse_command_at("!h", NOW), Ok(Command::Help));
    assert_eq!(parse_command_at("!stop", NOW), Ok(Command::Stop));
    assert_eq!(parse_command_at("!ls", NOW), Ok(Command::List));
}

#[test]
fn commands_with_a_project_are_read() {
    assert_eq!(parse_command_at("!digest ac/bot", NOW), Ok(Command::Digest("ac/bot".into())));
    assert_eq!(
        parse_command_at("!switch ac/bot design", NOW),
        Ok(Command::Switch("ac/bot".into(), "design".into()))
    );
    assert_eq!(
        parse_command_at("!provision ac/bot 10h", NOW),
        Ok(Command::Provision("ac/bot".into(), Duration::from_secs(36_000)))
    );
    assert_eq!(
        parse_command_at("!note ac/bot call them back. Soon!", NOW),
        Ok(Command::Note("ac/bot".into(), "call them back. Soon!".into()))
    );
    assert_eq!(
        parse_command_at("!deadline ac/bot 2020-03-09", NOW),
        Ok(Command::Deadline("ac/bot".into(), SystemTime { millis: 1_583_712_061_000 }))
    );
    assert_eq!(parse_command_at("!more 2h", NOW), Ok(Command::More(Duration::from_secs(7_200))));
}

#[test]
fn complete_takes_a_date_or_now() {
    assert_eq!(
        parse_command_at("!complete ac/bot 09/03/2020", NOW),
        Ok(Command::Complete("ac/bot".into(), SystemTime { millis: 1_583_712_061_000 }))
    );
    assert_eq!(
        parse_command_at("!complete ac/bot ", NOW),
        Ok(Command::Complete("ac/bot".into(), NOW))
    );
    assert_eq!(parse_command_at("!complete ac/bot", NOW), Err(ParseCommandError::Mysterious));
}

#[test]
fn since_takes_a_date_or_a_duration_back_from_now() {
    assert_eq!(
        parse_command_at("!since 2020-03-09", NOW),
        Ok(Command::Since(SystemTime { millis: 1_583_712_061_000 }))
    );
    assert_eq!(
        parse_command_at("!since 2h", NOW),
        Ok(Command::Since(SystemTime { millis: NOW.millis - 7_200_000 }))
    );
    assert_eq!(
        parse_command_at("!since 100years", NOW),
        Ok(Command::Since(SystemTime { millis: 0 }))
    );
}

#[test]
fn every_error_has_a_text_that_gives_it() {
    assert_eq!(parse_command_at("hello", NOW), Err(ParseCommandError::NotFound));
    assert_eq!(parse_command_at("", NOW), Err(ParseCommandError::NotFound));
    assert_eq!(parse_command_at("!do", NOW), Err(ParseCommandError::NotFound));
    assert_eq!(parse_command_at("!since", NOW), Err(ParseCommandError::Mysterious));
    assert_eq!(parse_command_at("!do ac/bot", NOW), Err(ParseCommandError::Mysterious));
    assert_eq!(parse_command_at("!deadline ac/bot soon", NOW), Err(ParseCommandError::DateFormat));
    assert_eq!(parse_command_at("!since ", NOW), Err(ParseCommandError::DateFormat));
    assert_eq!(parse_command_at("!more never", NOW), Err(ParseCommandError::DurationFormat));
    assert_eq!(parse_command_at("!since soon", NOW), Err(ParseCommandError::DurationFormat));
    assert_eq!(parse_command_at("!do ac/bot ? 1h", NOW), Err(ParseCommandError::IdentFormat));
    assert_eq!(parse_command_at("!new acbot", NOW), Err(ParseCommandError::ProjectIdentFormat));
    assert_eq!(parse_command_at("!new /bot", NOW), Err(ParseCommandError::ProjectIdentFormat));
}

#[test]
fn errors_have_their_words() {
    assert_eq!(ParseCommandError::NotFound.to_string(), "Command does not exists");
    assert_eq!(ParseCommandError::Mysterious.to_string(), "Something bad happened...");
    assert_eq!(ParseCommandError::DateFormat.to_string(), "A date was not well encoded");
    assert_eq!(ParseCommandError::DurationFormat.to_string(), "A duration was not well encoded");
    assert_eq!(ParseCommandError::IdentFormat.to_string(), "An identifier was not working for me");
    assert_eq!(
        ParseCommandError::ProjectIdentFormat.to_string(),
        "A project identifier was not working for me"
    );
}

#[test]
fn commands_are_read_at_the_time_of_the_clock() {
    // 2020-06-15 12:00:00 UTC has passed
    match parse_command("!complete ac/bot ") {
        Ok(Command::Complete(name, at)) => {
            assert_eq!(name, "ac/bot");
            assert!(at.millis > NOW.millis);
        }
        other => panic!("not a completion: {:?}", other),
    }
    match parse_command("!since 1h") {
        Ok(Command::Since(at)) => assert!(at.millis > NOW.millis - 3_600_000),
        other => panic!("not a since: {:?}", other),
    }
}

#[test]
fn a_duration_of_too_many_digits_is_refused() {
    assert_eq!(
        parse_command_at("!more 18446744073709551615s 1000000000ns", NOW),
        Err(ParseCommandError::DurationFormat)
    );
    assert_eq!(
        parse_command_at("!more 18446744073709551615s 500ms 500ms", NOW),
        Err(ParseCommandError::DurationFormat)
    );
    assert_eq!(
        parse_command_at("!more 12345678901ms", NOW),
        Ok(Command::More(Duration { millis: 12_345_678_901 }))
    );
    assert_eq!(
        parse_command_at("!more 123456789012ms", NOW),
        Err(ParseCommandError::DurationFormat)
    );
    assert_eq!(
        parse_command_at("!more 1h 30min 15s 250ms", NOW),
        Ok(Command::More(Duration { millis: 5_415_250 }))
    );
}
