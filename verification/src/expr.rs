//! The commands of the bot, and how they are read.
//!
//! A command starts with its name. What belongs to it follows, set off by
//! spaces or tabs: the name of a project (a client, a `/` and a project),
//! the name of a task, a duration, a date, or free text. The names of the
//! commands are tried in a fixed order, and the first that fits the whole
//! of what it needs is the command.
use crate::parser_ext::ParseCommandError;
use crate::time::{Duration, LocalTime, SystemTime, MAX_SECS, MIN_SECS};
use crate::util::{civil_midnight, local_year, midnight_of, year_of};
use vstd::prelude::*;

verus! {

/// A command to the bot.
#[derive(Clone, Debug, PartialEq)]
pub enum Command {
    Ping,
    Help,
    Add(String),
    Do(String, String, Duration),
    Done(String, String, Duration),
    Switch(String, String),
    Stop,
    More(Duration),
    List,
    Digest(String),
    Since(SystemTime),
    Deadline(String, SystemTime),
    Provision(String, Duration),
    Complete(String, SystemTime),
    Note(String, String),
}

/// What a [`Command`] says.
pub enum CommandView {
    Ping,
    Help,
    Add(Seq<char>),
    Do(Seq<char>, Seq<char>, Duration),
    Done(Seq<char>, Seq<char>, Duration),
    Switch(Seq<char>, Seq<char>),
    Stop,
    More(Duration),
    List,
    Digest(Seq<char>),
    Since(SystemTime),
    Deadline(Seq<char>, SystemTime),
    Provision(Seq<char>, Duration),
    Complete(Seq<char>, SystemTime),
    Note(Seq<char>, Seq<char>),
}

impl View for Command {
    type V = CommandView;

    open spec fn view(&self) -> CommandView {
        match *self {
            Command::Ping => CommandView::Ping,
            Command::Help => CommandView::Help,
            Command::Add(p) => CommandView::Add(p@),
            Command::Do(p, t, d) => CommandView::Do(p@, t@, d),
            Command::Done(p, t, d) => CommandView::Done(p@, t@, d),
            Command::Switch(p, t) => CommandView::Switch(p@, t@),
            Command::Stop => CommandView::Stop,
            Command::More(d) => CommandView::More(d),
            Command::List => CommandView::List,
            Command::Digest(p) => CommandView::Digest(p@),
            Command::Since(t) => CommandView::Since(t),
            Command::Deadline(p, t) => CommandView::Deadline(p@, t),
            Command::Provision(p, d) => CommandView::Provision(p@, d),
            Command::Complete(p, t) => CommandView::Complete(p@, t),
            Command::Note(p, c) => CommandView::Note(p@, c@),
        }
    }
}

// ---------------------------------------------------------------------------
// What comes from outside

/// The span of time that `humantime` reads in `text`, in whole
/// milliseconds; `None` where it reads none.
pub uninterp spec fn duration_millis(text: Seq<char>) -> Option<u128>;

/// The most decimal digits that a text may hold to be read as a span of
/// time. With no more, the numbers of the text, each in its unit, add up
/// to fewer seconds than a span can hold, however they are spread.
pub const MAX_DURATION_DIGITS: usize = 11;

/// The number of decimal digits among the characters of `text`.
pub open spec fn digit_count(text: Seq<char>) -> nat
    decreases text.len(),
{
    if text.len() == 0 {
        0
    } else if is_digit(text.last()) {
        digit_count(text.drop_last()) + 1
    } else {
        digit_count(text.drop_last())
    }
}

/// What `humantime::parse_duration` makes of `text`, a sequence of numbers
/// each with its unit, in whole milliseconds; `None` where it reports an
/// error. It adds the seconds of the numbers up and cannot go on where
/// they fill all that a span can hold, so the text is to hold no more than
/// [`MAX_DURATION_DIGITS`] digits.
#[verifier::external_body]
fn parse_duration(text: &str) -> (millis: Option<u128>)
    requires
        digit_count(text@) <= MAX_DURATION_DIGITS,
    ensures
        millis == duration_millis(text@),
{
    humantime::parse_duration(text).ok().map(|d| d.as_millis())
}

/// The milliseconds from the epoch to one minute and one second past
/// midnight, UTC, of the day `day` of the month `month` of the year
/// `year`; `None` where there is no such day within ten thousand years of
/// the epoch.
pub open spec fn utc_date_millis(year: i32, month: u32, day: u32) -> Option<i64> {
    match civil_midnight(year, month, day) {
        Some(secs) => if MIN_SECS <= secs <= MAX_SECS {
            Some(((secs + 61) * 1000) as i64)
        } else {
            None
        },
        None => None,
    }
}

/// The milliseconds from the epoch to one minute and one second past
/// midnight, UTC, of the day `day` of the month `month` of the year `year`.
fn utc_date(year: i32, month: u32, day: u32) -> (millis: Option<i64>)
    ensures
        millis == utc_date_millis(year, month, day),
{
    match midnight_of(year, month, day) {
        Some(secs) => {
            if secs >= MIN_SECS && secs <= MAX_SECS {
                Some((secs + 61) * 1000)
            } else {
                None
            }
        },
        None => None,
    }
}

/// The year of `now` on the UTC calendar; `None` where `now` lies beyond
/// what calendars can name.
fn this_year(now: SystemTime) -> (year: Option<i32>)
    ensures
        year == year_at(now),
{
    if now.millis / 1000 <= MAX_SECS as u64 {
        Some(year_of(&LocalTime { secs: (now.millis / 1000) as i64, offset: 0 }))
    } else {
        None
    }
}

/// The time on the clock of the machine, in whole milliseconds since the
/// epoch: `std::time::SystemTime::now`. Nothing is known of it beforehand.
#[verifier::external_body]
fn current_time() -> (now: SystemTime) {
    let since = std::time::SystemTime::now().duration_since(std::time::UNIX_EPOCH);
    SystemTime { millis: since.unwrap_or_default().as_millis() as u64 }
}

// ---------------------------------------------------------------------------
// Characters

/// A space or a tab.
pub open spec fn is_blank(c: char) -> bool {
    c == ' ' || c == '\t'
}

/// A decimal digit.
pub open spec fn is_digit(c: char) -> bool {
    '0' <= c <= '9'
}

/// A character of a name: a letter of the English alphabet, a digit, `_`,
/// `-` or `.`.
pub open spec fn is_ident_char(c: char) -> bool {
    ('a' <= c <= 'z') || ('A' <= c <= 'Z') || is_digit(c) || c == '_' || c == '-' || c == '.'
}

/// What may stand between the parts of a date: a space, `-`, `.` or `/`.
pub open spec fn is_date_sep(c: char) -> bool {
    c == ' ' || c == '-' || c == '.' || c == '/'
}

/// The test [`is_blank`].
pub open spec fn blanks() -> spec_fn(char) -> bool {
    |c: char| is_blank(c)
}

/// The test [`is_ident_char`].
pub open spec fn ident_chars() -> spec_fn(char) -> bool {
    |c: char| is_ident_char(c)
}

/// Where the characters that pass `test` end that start at `i`.
pub open spec fn run_end(s: Seq<char>, i: int, test: spec_fn(char) -> bool) -> int
    decreases s.len() - i,
{
    if 0 <= i < s.len() && test(s[i]) {
        run_end(s, i + 1, test)
    } else {
        i
    }
}

/// `lit` stands in `s` at `i`.
pub open spec fn has_at(s: Seq<char>, i: int, lit: Seq<char>) -> bool {
    0 <= i && i + lit.len() <= s.len() && s.subrange(i, i + lit.len()) == lit
}

/// `n` digits stand in `s` at `i`.
pub open spec fn digits_at(s: Seq<char>, i: int, n: int) -> bool {
    0 <= i && i + n <= s.len() && forall|k: int| i <= k < i + n ==> is_digit(#[trigger] s[k])
}

/// The number that the `n` digits in `s` at `i` stand for.
pub open spec fn digits_value(s: Seq<char>, i: int, n: int) -> int
    decreases n,
{
    if n <= 0 {
        0
    } else {
        digits_value(s, i, n - 1) * 10 + (s[i + n - 1] as int - '0' as int)
    }
}

/// Where a name ends that starts at `i`; `None` where no name starts there.
pub open spec fn ident_at(s: Seq<char>, i: int) -> Option<int> {
    let end = run_end(s, i, ident_chars());
    if end > i {
        Some(end)
    } else {
        None
    }
}

/// Where the name of a project ends that starts at `i`: a name, a `/` and
/// a name. `None` where no such thing starts there.
pub open spec fn project_ident_at(s: Seq<char>, i: int) -> Option<int> {
    match ident_at(s, i) {
        None => None,
        Some(slash) => if slash < s.len() && s[slash] == '/' {
            ident_at(s, slash + 1)
        } else {
            None
        },
    }
}

/// Where the blanks end that start at `i`; `None` where none starts there.
pub open spec fn space_at(s: Seq<char>, i: int) -> Option<int> {
    let end = run_end(s, i, blanks());
    if end > i {
        Some(end)
    } else {
        None
    }
}

/// The point in time that `millis` milliseconds from the epoch stand for,
/// where there are such: none lies before the epoch.
pub open spec fn time_of(millis: Option<i64>) -> Option<SystemTime> {
    match millis {
        Some(m) => if m >= 0 {
            Some(SystemTime { millis: m as u64 })
        } else {
            None
        },
        None => None,
    }
}

/// The date written as year, month and day at `i`, with where it ends.
pub open spec fn iso_date_at(s: Seq<char>, i: int) -> Option<(SystemTime, int)> {
    if digits_at(s, i, 4) && i + 4 < s.len() && is_date_sep(s[i + 4]) && digits_at(s, i + 5, 2) && i
        + 7 < s.len() && is_date_sep(s[i + 7]) && digits_at(s, i + 8, 2) {
        match time_of(
            utc_date_millis(
                digits_value(s, i, 4) as i32,
                digits_value(s, i + 5, 2) as u32,
                digits_value(s, i + 8, 2) as u32,
            ),
        ) {
            Some(t) => Some((t, i + 10)),
            None => None,
        }
    } else {
        None
    }
}

/// The date written as day and month at `i`, with the year behind or
/// else of the year `this_year`, with where it ends.
pub open spec fn day_first_date_at(s: Seq<char>, i: int, this_year: Option<i32>) -> Option<
    (SystemTime, int),
> {
    if digits_at(s, i, 2) && i + 2 < s.len() && is_date_sep(s[i + 2]) && digits_at(s, i + 3, 2) {
        let with_year = i + 5 < s.len() && is_date_sep(s[i + 5]) && digits_at(s, i + 6, 4);
        let year = if with_year {
            Some(digits_value(s, i + 6, 4) as i32)
        } else {
            this_year
        };
        let end = if with_year {
            i + 10
        } else {
            i + 5
        };
        match year {
            None => None,
            Some(y) => match time_of(
                utc_date_millis(y, digits_value(s, i + 3, 2) as u32, digits_value(s, i, 2) as u32),
            ) {
                Some(t) => Some((t, end)),
                None => None,
            },
        }
    } else {
        None
    }
}

/// The date written at `i`, in either of the two forms, with where it ends.
pub open spec fn date_at(s: Seq<char>, i: int, this_year: Option<i32>) -> Option<(SystemTime, int)> {
    match iso_date_at(s, i) {
        Some(found) => Some(found),
        None => day_first_date_at(s, i, this_year),
    }
}

/// The span of time that the text from `i` to the end of `s` stands for:
/// `Ok` with the span, `Err(true)` where the text is no duration or holds
/// more than [`MAX_DURATION_DIGITS`] digits, and `Err(false)` where there
/// is no text.
pub open spec fn duration_at(s: Seq<char>, i: int) -> Result<Duration, bool> {
    if i >= s.len() {
        Err(false)
    } else if digit_count(s.skip(i)) > MAX_DURATION_DIGITS {
        Err(true)
    } else {
        match duration_millis(s.skip(i)) {
            Some(m) => if m <= u64::MAX {
                Ok(Duration { millis: m as u64 })
            } else {
                Err(true)
            },
            None => Err(true),
        }
    }
}

// ---------------------------------------------------------------------------
// Reading characters

/// The characters of `s`.
fn to_chars(s: &str) -> (chars: Vec<char>)
    ensures
        chars@ == s@,
{
    let n = s.unicode_len();
    let mut chars: Vec<char> = Vec::new();
    let mut i: usize = 0;
    while i < n
        invariant
            i <= n,
            n == s@.len(),
            chars@ == s@.take(i as int),
        decreases n - i,
    {
        chars.push(s.get_char(i));
        assert(chars@ =~= s@.take(i + 1));
        i = i + 1;
    }
    assert(s@.take(n as int) =~= s@);
    chars
}

/// Whether `c` is a space or a tab.
fn blank(c: char) -> (b: bool)
    ensures
        b == is_blank(c),
{
    c == ' ' || c == '\t'
}

/// Whether `c` is a decimal digit.
fn digit(c: char) -> (b: bool)
    ensures
        b == is_digit(c),
{
    '0' <= c && c <= '9'
}

/// Whether `c` is a character of a name.
fn ident_char(c: char) -> (b: bool)
    ensures
        b == is_ident_char(c),
{
    ('a' <= c && c <= 'z') || ('A' <= c && c <= 'Z') || digit(c) || c == '_' || c == '-' || c
        == '.'
}

/// Whether `c` may stand between the parts of a date.
fn date_sep(c: char) -> (b: bool)
    ensures
        b == is_date_sep(c),
{
    c == ' ' || c == '-' || c == '.' || c == '/'
}

/// Where the blanks end that start at `i`.
fn skip_blanks(chars: &Vec<char>, i: usize) -> (end: usize)
    requires
        i <= chars.len(),
    ensures
        end == run_end(chars@, i as int, blanks()),
        i <= end <= chars.len(),
{
    let mut end = i;
    while end < chars.len() && blank(chars[end])
        invariant
            i <= end <= chars.len(),
            run_end(chars@, i as int, blanks()) == run_end(chars@, end as int, blanks()),
        decreases chars.len() - end,
    {
        end = end + 1;
    }
    end
}

/// Where the characters of a name end that start at `i`.
fn skip_ident(chars: &Vec<char>, i: usize) -> (end: usize)
    requires
        i <= chars.len(),
    ensures
        end == run_end(chars@, i as int, ident_chars()),
        i <= end <= chars.len(),
{
    let mut end = i;
    while end < chars.len() && ident_char(chars[end])
        invariant
            i <= end <= chars.len(),
            run_end(chars@, i as int, ident_chars()) == run_end(
                chars@,
                end as int,
                ident_chars(),
            ),
        decreases chars.len() - end,
    {
        end = end + 1;
    }
    end
}

/// Whether `lit` stands in `chars` at `i`.
fn starts_with(chars: &Vec<char>, i: usize, lit: &str) -> (b: bool)
    requires
        i <= chars.len(),
    ensures
        b == has_at(chars@, i as int, lit@),
{
    let n = lit.unicode_len();
    if n > chars.len() - i {
        return false;
    }
    let mut k: usize = 0;
    while k < n
        invariant
            k <= n,
            n == lit@.len(),
            i + n <= chars.len(),
            forall|j: int| 0 <= j < k ==> chars@[i + j] == lit@[j],
        decreases n - k,
    {
        if chars[i + k] != lit.get_char(k) {
            assert(chars@.subrange(i as int, i + n)[k as int] != lit@[k as int]);
            return false;
        }
        k = k + 1;
    }
    assert(chars@.subrange(i as int, i + n) =~= lit@);
    true
}

/// The number that the `n` digits in `chars` at `i` stand for, where
/// there are `n` digits.
fn read_digits(chars: &Vec<char>, i: usize, n: usize) -> (value: Option<u32>)
    requires
        n <= 4,
    ensures
        value is Some <==> i <= chars.len() && digits_at(chars@, i as int, n as int),
        value matches Some(v) ==> v == digits_value(chars@, i as int, n as int),
{
    if i > chars.len() || n > chars.len() - i {
        return None;
    }
    let mut value: u32 = 0;
    let mut k: usize = 0;
    while k < n
        invariant
            k <= n <= 4,
            i + n <= chars.len(),
            forall|j: int| i <= j < i + k ==> is_digit(#[trigger] chars@[j]),
            value == digits_value(chars@, i as int, k as int),
            value < pow10(k as int),
        decreases n - k,
    {
        let c = chars[i + k];
        if !digit(c) {
            return None;
        }
        value = value * 10 + (c as u32 - '0' as u32);
        k = k + 1;
    }
    Some(value)
}

/// Ten to the power `k`, for what four digits need.
pub open spec fn pow10(k: int) -> int {
    if k <= 0 {
        1
    } else if k == 1 {
        10
    } else if k == 2 {
        100
    } else if k == 3 {
        1000
    } else {
        10000
    }
}

/// Where a name ends that starts at `i`.
fn ident(chars: &Vec<char>, i: usize) -> (end: Option<usize>)
    requires
        i <= chars.len(),
    ensures
        match end {
            Some(e) => ident_at(chars@, i as int) == Some(e as int) && i < e <= chars.len(),
            None => ident_at(chars@, i as int) is None,
        },
{
    let end = skip_ident(chars, i);
    if end > i {
        Some(end)
    } else {
        None
    }
}

/// Where the name of a project ends that starts at `i`.
fn match_project_ident(chars: &Vec<char>, i: usize) -> (end: Option<usize>)
    requires
        i <= chars.len(),
    ensures
        match end {
            Some(e) => project_ident_at(chars@, i as int) == Some(e as int) && i < e
                <= chars.len(),
            None => project_ident_at(chars@, i as int) is None,
        },
{
    match ident(chars, i) {
        None => None,
        Some(slash) => {
            if slash < chars.len() && chars[slash] == '/' {
                ident(chars, slash + 1)
            } else {
                None
            }
        },
    }
}

/// Where the blanks end that start at `i`, where there are any.
fn space(chars: &Vec<char>, i: usize) -> (end: Option<usize>)
    requires
        i <= chars.len(),
    ensures
        match end {
            Some(e) => space_at(chars@, i as int) == Some(e as int) && i < e <= chars.len(),
            None => space_at(chars@, i as int) is None,
        },
{
    let end = skip_blanks(chars, i);
    if end > i {
        Some(end)
    } else {
        None
    }
}

/// The point in time that `millis` stands for, where there is one.
fn to_time(millis: Option<i64>) -> (t: Option<SystemTime>)
    ensures
        t == time_of(millis),
{
    match millis {
        Some(m) => {
            if m >= 0 {
                Some(SystemTime { millis: m as u64 })
            } else {
                None
            }
        },
        None => None,
    }
}

/// Whether one of the characters that may stand between the parts of a
/// date stands in `chars` at `i`.
fn sep_at(chars: &Vec<char>, i: usize) -> (b: bool)
    ensures
        b == (i < chars.len() && is_date_sep(chars@[i as int])),
{
    i < chars.len() && date_sep(chars[i])
}

/// The date written as year, month and day at `i`.
fn iso_date(chars: &Vec<char>, i: usize) -> (found: Option<(SystemTime, usize)>)
    requires
        i <= chars.len(),
    ensures
        match found {
            Some(f) => iso_date_at(chars@, i as int) == Some((f.0, f.1 as int)) && f.1
                <= chars.len(),
            None => iso_date_at(chars@, i as int) is None,
        },
{
    if chars.len() - i < 10 {
        return None;
    }
    match (read_digits(chars, i, 4), read_digits(chars, i + 5, 2), read_digits(chars, i + 8, 2)) {
        (Some(y), Some(m), Some(d)) => {
            if sep_at(chars, i + 4) && sep_at(chars, i + 7) {
                match to_time(utc_date(y as i32, m, d)) {
                    Some(t) => Some((t, i + 10)),
                    None => None,
                }
            } else {
                None
            }
        },
        _ => None,
    }
}

/// The date written as day and month at `i`, with the year behind or
/// else of the year `this_year`.
fn day_first_date(chars: &Vec<char>, i: usize, this_year: Option<i32>) -> (found: Option<
    (SystemTime, usize),
>)
    requires
        i <= chars.len(),
    ensures
        match found {
            Some(f) => day_first_date_at(chars@, i as int, this_year) == Some((f.0, f.1 as int))
                && f.1 <= chars.len(),
            None => day_first_date_at(chars@, i as int, this_year) is None,
        },
{
    if chars.len() - i < 5 {
        return None;
    }
    match (read_digits(chars, i, 2), read_digits(chars, i + 3, 2)) {
        (Some(d), Some(m)) => {
            if !sep_at(chars, i + 2) {
                return None;
            }
            let written = if chars.len() - i >= 10 && sep_at(chars, i + 5) {
                read_digits(chars, i + 6, 4)
            } else {
                None
            };
            let (year, end) = match written {
                Some(y) => (Some(y as i32), i + 10),
                None => (this_year, i + 5),
            };
            match year {
                None => None,
                Some(y) => match to_time(utc_date(y, m, d)) {
                    Some(t) => Some((t, end)),
                    None => None,
                },
            }
        },
        _ => None,
    }
}

/// The date written at `i`, in either of the two forms.
fn match_date(chars: &Vec<char>, i: usize, this_year: Option<i32>) -> (found: Option<(SystemTime, usize)>)
    requires
        i <= chars.len(),
    ensures
        match found {
            Some(f) => date_at(chars@, i as int, this_year) == Some((f.0, f.1 as int)) && f.1
                <= chars.len(),
            None => date_at(chars@, i as int, this_year) is None,
        },
{
    match iso_date(chars, i) {
        Some(found) => Some(found),
        None => day_first_date(chars, i, this_year),
    }
}

/// The number of decimal digits among the characters from `i` to the end.
fn count_digits(chars: &Vec<char>, i: usize) -> (n: usize)
    requires
        i <= chars.len(),
    ensures
        n == digit_count(chars@.skip(i as int)),
{
    let mut n: usize = 0;
    let mut k: usize = i;
    assert(chars@.subrange(i as int, i as int) =~= Seq::empty());
    while k < chars.len()
        invariant
            i <= k <= chars.len(),
            n <= k - i,
            n == digit_count(chars@.subrange(i as int, k as int)),
        decreases chars.len() - k,
    {
        assert(chars@.subrange(i as int, k + 1).drop_last() =~= chars@.subrange(
            i as int,
            k as int,
        ));
        if digit(chars[k]) {
            n = n + 1;
        }
        k = k + 1;
    }
    assert(chars@.subrange(i as int, k as int) =~= chars@.skip(i as int));
    n
}

/// The span of time that the text from `i` to the end stands for.
fn duration(expr: &str, chars: &Vec<char>, i: usize) -> (found: Result<Duration, bool>)
    requires
        chars@ == expr@,
        i <= chars.len(),
    ensures
        found == duration_at(chars@, i as int),
{
    if i >= chars.len() {
        return Err(false);
    }
    if count_digits(chars, i) > MAX_DURATION_DIGITS {
        return Err(true);
    }
    let rest = expr.substring_char(i, chars.len());
    assert(rest@ =~= chars@.skip(i as int));
    match parse_duration(rest) {
        Some(m) => {
            if m <= u64::MAX as u128 {
                Ok(Duration { millis: m as u64 })
            } else {
                Err(true)
            }
        },
        None => Err(true),
    }
}

/// The name of a project that `text` starts with.
pub fn project_ident(text: &str) -> (found: Result<String, ParseCommandError>)
    ensures
        match found {
            Ok(name) => project_ident_at(text@, 0) matches Some(end) && name@ == text@.subrange(
                0,
                end,
            ),
            Err(e) => project_ident_at(text@, 0) is None && e
                == ParseCommandError::ProjectIdentFormat,
        },
{
    let chars = to_chars(text);
    match match_project_ident(&chars, 0) {
        Some(end) => Ok(piece(text, 0, end)),
        None => Err(ParseCommandError::ProjectIdentFormat),
    }
}

/// The date that `text` starts with, where a date without a year is of
/// the year of `now`.
pub fn date(text: &str, now: SystemTime) -> (found: Result<SystemTime, ParseCommandError>)
    ensures
        match found {
            Ok(t) => date_at(text@, 0, year_at(now)) matches Some(f) && f.0 == t,
            Err(e) => date_at(text@, 0, year_at(now)) is None && e == ParseCommandError::DateFormat,
        },
{
    let chars = to_chars(text);
    let this_year = this_year(now);
    match match_date(&chars, 0, this_year) {
        Some(found) => Ok(found.0),
        None => Err(ParseCommandError::DateFormat),
    }
}

// ---------------------------------------------------------------------------
// The commands, one by one

/// What came of trying one command: the command, where the text is one;
/// whether the text has the name of the command; and what was found
/// wrong, where something was.
pub struct Tried {
    pub out: Option<Command>,
    pub named: bool,
    pub error: Option<ParseCommandError>,
}

/// What a [`Tried`] says.
pub struct TriedView {
    pub out: Option<CommandView>,
    pub named: bool,
    pub error: Option<ParseCommandError>,
}

impl View for Tried {
    type V = TriedView;

    open spec fn view(&self) -> TriedView {
        TriedView {
            out: match self.out {
                Some(c) => Some(c@),
                None => None,
            },
            named: self.named,
            error: self.error,
        }
    }
}

/// The text is not this command.
pub open spec fn not_this() -> TriedView {
    TriedView { out: None, named: false, error: None }
}

/// The text has the name of the command, and `error` is wrong with the rest.
pub open spec fn wrong(error: Option<ParseCommandError>) -> TriedView {
    TriedView { out: None, named: true, error }
}

/// The text is the command `c`.
pub open spec fn is_command(c: CommandView) -> TriedView {
    TriedView { out: Some(c), named: true, error: None }
}

/// Where what follows the name `name` starts: behind the name and the
/// blanks that follow it. `None` where the text does not start with the
/// name or no blank follows.
pub open spec fn after_name(s: Seq<char>, name: Seq<char>) -> Option<int> {
    if has_at(s, 0, name) {
        space_at(s, name.len() as int)
    } else {
        None
    }
}

/// The same for the text that is not this command.
fn none() -> (t: Tried)
    ensures
        t@ == not_this(),
{
    Tried { out: None, named: false, error: None }
}

/// The same for the text in which `error` is wrong.
fn fail(error: Option<ParseCommandError>) -> (t: Tried)
    ensures
        t@ == wrong(error),
{
    Tried { out: None, named: true, error }
}

/// The same for the text that is the command `c`.
fn got(c: Command) -> (t: Tried)
    ensures
        t@ == is_command(c@),
{
    Tried { out: Some(c), named: true, error: None }
}

/// Where what follows the name `name` starts.
fn name_then_space(chars: &Vec<char>, name: &str) -> (start: Option<usize>)
    ensures
        match start {
            Some(i) => after_name(chars@, name@) == Some(i as int) && i <= chars.len(),
            None => after_name(chars@, name@) is None,
        },
{
    if starts_with(chars, 0, name) {
        space(chars, name.unicode_len())
    } else {
        None
    }
}

/// The text of `expr` from `from` to `to`.
fn piece(expr: &str, from: usize, to: usize) -> (text: String)
    requires
        from <= to <= expr@.len(),
    ensures
        text@ == expr@.subrange(from as int, to as int),
{
    String::from_str(expr.substring_char(from, to))
}

/// `!ping`.
pub open spec fn try_ping(s: Seq<char>) -> TriedView {
    if has_at(s, 0, "!ping"@) {
        is_command(CommandView::Ping)
    } else {
        not_this()
    }
}

/// `!help`, or `!h` for short.
pub open spec fn try_help(s: Seq<char>) -> TriedView {
    if has_at(s, 0, "!help"@) || has_at(s, 0, "!h"@) {
        is_command(CommandView::Help)
    } else {
        not_this()
    }
}

/// `!stop`.
pub open spec fn try_stop(s: Seq<char>) -> TriedView {
    if has_at(s, 0, "!stop"@) {
        is_command(CommandView::Stop)
    } else {
        not_this()
    }
}

/// `!ls`.
pub open spec fn try_list(s: Seq<char>) -> TriedView {
    if has_at(s, 0, "!ls"@) {
        is_command(CommandView::List)
    } else {
        not_this()
    }
}

/// `!new` and the name of a project.
pub open spec fn try_add(s: Seq<char>) -> TriedView {
    match after_name(s, "!new"@) {
        None => not_this(),
        Some(i) => match project_ident_at(s, i) {
            None => wrong(Some(ParseCommandError::ProjectIdentFormat)),
            Some(j) => is_command(CommandView::Add(s.subrange(i, j))),
        },
    }
}

/// `!digest` and the name of a project.
pub open spec fn try_digest(s: Seq<char>) -> TriedView {
    match after_name(s, "!digest"@) {
        None => not_this(),
        Some(i) => match project_ident_at(s, i) {
            None => wrong(Some(ParseCommandError::ProjectIdentFormat)),
            Some(j) => is_command(CommandView::Digest(s.subrange(i, j))),
        },
    }
}

/// What follows the name of a command that takes a project, a task and a
/// duration: the three, or what is wrong.
pub open spec fn project_task_duration(s: Seq<char>, i: int) -> Result<
    (Seq<char>, Seq<char>, Duration),
    Option<ParseCommandError>,
> {
    match project_ident_at(s, i) {
        None => Err(Some(ParseCommandError::ProjectIdentFormat)),
        Some(j) => match space_at(s, j) {
            None => Err(None),
            Some(k) => match ident_at(s, k) {
                None => Err(Some(ParseCommandError::IdentFormat)),
                Some(l) => match space_at(s, l) {
                    None => Err(None),
                    Some(m) => match duration_at(s, m) {
                        Ok(d) => Ok((s.subrange(i, j), s.subrange(k, l), d)),
                        Err(true) => Err(Some(ParseCommandError::DurationFormat)),
                        Err(false) => Err(None),
                    },
                },
            },
        },
    }
}

/// `!do`, the name of a project, the name of a task and a duration.
pub open spec fn try_start(s: Seq<char>) -> TriedView {
    match after_name(s, "!do"@) {
        None => not_this(),
        Some(i) => match project_task_duration(s, i) {
            Ok(found) => is_command(CommandView::Do(found.0, found.1, found.2)),
            Err(e) => wrong(e),
        },
    }
}

/// `!done`, the name of a project, the name of a task and a duration.
pub open spec fn try_done(s: Seq<char>) -> TriedView {
    match after_name(s, "!done"@) {
        None => not_this(),
        Some(i) => match project_task_duration(s, i) {
            Ok(found) => is_command(CommandView::Done(found.0, found.1, found.2)),
            Err(e) => wrong(e),
        },
    }
}

/// `!more` and a duration.
pub open spec fn try_more(s: Seq<char>) -> TriedView {
    match after_name(s, "!more"@) {
        None => not_this(),
        Some(i) => match duration_at(s, i) {
            Ok(d) => is_command(CommandView::More(d)),
            Err(true) => wrong(Some(ParseCommandError::DurationFormat)),
            Err(false) => wrong(None),
        },
    }
}

/// `!switch`, the name of a project and the name of a task.
pub open spec fn try_switch(s: Seq<char>) -> TriedView {
    match after_name(s, "!switch"@) {
        None => not_this(),
        Some(i) => match project_ident_at(s, i) {
            None => wrong(Some(ParseCommandError::ProjectIdentFormat)),
            Some(j) => match space_at(s, j) {
                None => wrong(None),
                Some(k) => match ident_at(s, k) {
                    None => wrong(Some(ParseCommandError::IdentFormat)),
                    Some(l) => is_command(CommandView::Switch(s.subrange(i, j), s.subrange(k, l))),
                },
            },
        },
    }
}

/// The point in time the span `d` before `now`; the epoch where `d` is longer.
pub open spec fn before(now: SystemTime, d: Duration) -> SystemTime {
    if d.millis <= now.millis {
        SystemTime { millis: (now.millis - d.millis) as u64 }
    } else {
        SystemTime { millis: 0 }
    }
}

/// `!since` and a date, or a duration, which then counts back from `now`.
/// The text has the name of the command as soon as it starts with it.
pub open spec fn try_since(s: Seq<char>, now: SystemTime, this_year: Option<i32>) -> TriedView {
    if !has_at(s, 0, "!since"@) {
        not_this()
    } else {
        match space_at(s, 6) {
            None => wrong(None),
            Some(i) => match date_at(s, i, this_year) {
                Some(found) => is_command(CommandView::Since(found.0)),
                None => match duration_at(s, i) {
                    Ok(d) => is_command(CommandView::Since(before(now, d))),
                    Err(true) => wrong(Some(ParseCommandError::DurationFormat)),
                    Err(false) => wrong(Some(ParseCommandError::DateFormat)),
                },
            },
        }
    }
}

/// `!deadline`, the name of a project and a date.
pub open spec fn try_deadline(s: Seq<char>, this_year: Option<i32>) -> TriedView {
    match after_name(s, "!deadline"@) {
        None => not_this(),
        Some(i) => match project_ident_at(s, i) {
            None => wrong(Some(ParseCommandError::ProjectIdentFormat)),
            Some(j) => match space_at(s, j) {
                None => wrong(None),
                Some(k) => match date_at(s, k, this_year) {
                    None => wrong(Some(ParseCommandError::DateFormat)),
                    Some(found) => is_command(CommandView::Deadline(s.subrange(i, j), found.0)),
                },
            },
        },
    }
}

/// `!provision`, the name of a project and a duration.
pub open spec fn try_provision(s: Seq<char>) -> TriedView {
    match after_name(s, "!provision"@) {
        None => not_this(),
        Some(i) => match project_ident_at(s, i) {
            None => wrong(Some(ParseCommandError::ProjectIdentFormat)),
            Some(j) => match space_at(s, j) {
                None => wrong(None),
                Some(k) => match duration_at(s, k) {
                    Ok(d) => is_command(CommandView::Provision(s.subrange(i, j), d)),
                    Err(true) => wrong(Some(ParseCommandError::DurationFormat)),
                    Err(false) => wrong(None),
                },
            },
        },
    }
}

/// `!complete`, the name of a project, blanks, and a date or else nothing,
/// which stands for `now`.
pub open spec fn try_complete(s: Seq<char>, now: SystemTime, this_year: Option<i32>) -> TriedView {
    match after_name(s, "!complete"@) {
        None => not_this(),
        Some(i) => match project_ident_at(s, i) {
            None => wrong(Some(ParseCommandError::ProjectIdentFormat)),
            Some(j) => match space_at(s, j) {
                None => wrong(None),
                Some(k) => match date_at(s, k, this_year) {
                    Some(found) => is_command(CommandView::Complete(s.subrange(i, j), found.0)),
                    None => is_command(CommandView::Complete(s.subrange(i, j), now)),
                },
            },
        },
    }
}

/// `!note`, the name of a project and the rest of the text, which is
/// the note.
pub open spec fn try_note(s: Seq<char>) -> TriedView {
    match after_name(s, "!note"@) {
        None => not_this(),
        Some(i) => match project_ident_at(s, i) {
            None => wrong(Some(ParseCommandError::ProjectIdentFormat)),
            Some(j) => match space_at(s, j) {
                None => wrong(None),
                Some(k) => if k < s.len() {
                    is_command(CommandView::Note(s.subrange(i, j), s.skip(k)))
                } else {
                    wrong(None)
                },
            },
        },
    }
}

/// `!ping`.
fn ping(expr: &str, chars: &Vec<char>) -> (t: Tried)
    ensures
        t@ == try_ping(chars@),
{
    if starts_with(chars, 0, "!ping") {
        got(Command::Ping)
    } else {
        none()
    }
}

/// `!help`, or `!h` for short.
fn help(expr: &str, chars: &Vec<char>) -> (t: Tried)
    ensures
        t@ == try_help(chars@),
{
    if starts_with(chars, 0, "!help") || starts_with(chars, 0, "!h") {
        got(Command::Help)
    } else {
        none()
    }
}

/// `!stop`.
fn stop(expr: &str, chars: &Vec<char>) -> (t: Tried)
    ensures
        t@ == try_stop(chars@),
{
    if starts_with(chars, 0, "!stop") {
        got(Command::Stop)
    } else {
        none()
    }
}

/// `!ls`.
fn list(expr: &str, chars: &Vec<char>) -> (t: Tried)
    ensures
        t@ == try_list(chars@),
{
    if starts_with(chars, 0, "!ls") {
        got(Command::List)
    } else {
        none()
    }
}

/// `!new` and the name of a project.
fn add(expr: &str, chars: &Vec<char>) -> (t: Tried)
    requires
        chars@ == expr@,
    ensures
        t@ == try_add(chars@),
{
    match name_then_space(chars, "!new") {
        None => none(),
        Some(i) => match match_project_ident(chars, i) {
            None => fail(Some(ParseCommandError::ProjectIdentFormat)),
            Some(j) => got(Command::Add(piece(expr, i, j))),
        },
    }
}

/// `!digest` and the name of a project.
fn digest(expr: &str, chars: &Vec<char>) -> (t: Tried)
    requires
        chars@ == expr@,
    ensures
        t@ == try_digest(chars@),
{
    match name_then_space(chars, "!digest") {
        None => none(),
        Some(i) => match match_project_ident(chars, i) {
            None => fail(Some(ParseCommandError::ProjectIdentFormat)),
            Some(j) => got(Command::Digest(piece(expr, i, j))),
        },
    }
}

/// What follows the name of a command that takes a project, a task and a
/// duration.
fn read_project_task_duration(expr: &str, chars: &Vec<char>, i: usize) -> (found: Result<
    (String, String, Duration),
    Option<ParseCommandError>,
>)
    requires
        chars@ == expr@,
        i <= chars.len(),
    ensures
        match found {
            Ok(f) => project_task_duration(chars@, i as int) == Ok::<
                (Seq<char>, Seq<char>, Duration),
                Option<ParseCommandError>,
            >((f.0@, f.1@, f.2)),
            Err(e) => project_task_duration(chars@, i as int) == Err::<
                (Seq<char>, Seq<char>, Duration),
                Option<ParseCommandError>,
            >(e),
        },
{
    match match_project_ident(chars, i) {
        None => Err(Some(ParseCommandError::ProjectIdentFormat)),
        Some(j) => match space(chars, j) {
            None => Err(None),
            Some(k) => match ident(chars, k) {
                None => Err(Some(ParseCommandError::IdentFormat)),
                Some(l) => match space(chars, l) {
                    None => Err(None),
                    Some(m) => match duration(expr, chars, m) {
                        Ok(d) => Ok((piece(expr, i, j), piece(expr, k, l), d)),
                        Err(true) => Err(Some(ParseCommandError::DurationFormat)),
                        Err(false) => Err(None),
                    },
                },
            },
        },
    }
}

/// `!do`, the name of a project, the name of a task and a duration.
fn start(expr: &str, chars: &Vec<char>) -> (t: Tried)
    requires
        chars@ == expr@,
    ensures
        t@ == try_start(chars@),
{
    match name_then_space(chars, "!do") {
        None => none(),
        Some(i) => match read_project_task_duration(expr, chars, i) {
            Ok(found) => got(Command::Do(found.0, found.1, found.2)),
            Err(e) => fail(e),
        },
    }
}

/// `!done`, the name of a project, the name of a task and a duration.
fn done(expr: &str, chars: &Vec<char>) -> (t: Tried)
    requires
        chars@ == expr@,
    ensures
        t@ == try_done(chars@),
{
    match name_then_space(chars, "!done") {
        None => none(),
        Some(i) => match read_project_task_duration(expr, chars, i) {
            Ok(found) => got(Command::Done(found.0, found.1, found.2)),
            Err(e) => fail(e),
        },
    }
}

/// `!more` and a duration.
fn more(expr: &str, chars: &Vec<char>) -> (t: Tried)
    requires
        chars@ == expr@,
    ensures
        t@ == try_more(chars@),
{
    match name_then_space(chars, "!more") {
        None => none(),
        Some(i) => match duration(expr, chars, i) {
            Ok(d) => got(Command::More(d)),
            Err(true) => fail(Some(ParseCommandError::DurationFormat)),
            Err(false) => fail(None),
        },
    }
}

/// `!switch`, the name of a project and the name of a task.
fn switch(expr: &str, chars: &Vec<char>) -> (t: Tried)
    requires
        chars@ == expr@,
    ensures
        t@ == try_switch(chars@),
{
    match name_then_space(chars, "!switch") {
        None => none(),
        Some(i) => match match_project_ident(chars, i) {
            None => fail(Some(ParseCommandError::ProjectIdentFormat)),
            Some(j) => match space(chars, j) {
                None => fail(None),
                Some(k) => match ident(chars, k) {
                    None => fail(Some(ParseCommandError::IdentFormat)),
                    Some(l) => got(Command::Switch(piece(expr, i, j), piece(expr, k, l))),
                },
            },
        },
    }
}

/// `!since` and a date, or a duration, which then counts back from `now`.
fn since(expr: &str, chars: &Vec<char>, now: SystemTime, this_year: Option<i32>) -> (t: Tried)
    requires
        chars@ == expr@,
    ensures
        t@ == try_since(chars@, now, this_year),
{
    if !starts_with(chars, 0, "!since") {
        return none();
    }
    proof {
        reveal_strlit("!since");
    }
    match space(chars, 6) {
        None => fail(None),
        Some(i) => match match_date(chars, i, this_year) {
            Some(found) => got(Command::Since(found.0)),
            None => match duration(expr, chars, i) {
                Ok(d) => {
                    let at = if d.millis <= now.millis {
                        SystemTime { millis: now.millis - d.millis }
                    } else {
                        SystemTime { millis: 0 }
                    };
                    got(Command::Since(at))
                },
                Err(true) => fail(Some(ParseCommandError::DurationFormat)),
                Err(false) => fail(Some(ParseCommandError::DateFormat)),
            },
        },
    }
}

/// `!deadline`, the name of a project and a date.
fn deadline(expr: &str, chars: &Vec<char>, this_year: Option<i32>) -> (t: Tried)
    requires
        chars@ == expr@,
    ensures
        t@ == try_deadline(chars@, this_year),
{
    match name_then_space(chars, "!deadline") {
        None => none(),
        Some(i) => match match_project_ident(chars, i) {
            None => fail(Some(ParseCommandError::ProjectIdentFormat)),
            Some(j) => match space(chars, j) {
                None => fail(None),
                Some(k) => match match_date(chars, k, this_year) {
                    None => fail(Some(ParseCommandError::DateFormat)),
                    Some(found) => got(Command::Deadline(piece(expr, i, j), found.0)),
                },
            },
        },
    }
}

/// `!provision`, the name of a project and a duration.
fn provision(expr: &str, chars: &Vec<char>) -> (t: Tried)
    requires
        chars@ == expr@,
    ensures
        t@ == try_provision(chars@),
{
    match name_then_space(chars, "!provision") {
        None => none(),
        Some(i) => match match_project_ident(chars, i) {
            None => fail(Some(ParseCommandError::ProjectIdentFormat)),
            Some(j) => match space(chars, j) {
                None => fail(None),
                Some(k) => match duration(expr, chars, k) {
                    Ok(d) => got(Command::Provision(piece(expr, i, j), d)),
                    Err(true) => fail(Some(ParseCommandError::DurationFormat)),
                    Err(false) => fail(None),
                },
            },
        },
    }
}

/// `!complete`, the name of a project, blanks, and a date or else nothing.
fn complete(expr: &str, chars: &Vec<char>, now: SystemTime, this_year: Option<i32>) -> (t: Tried)
    requires
        chars@ == expr@,
    ensures
        t@ == try_complete(chars@, now, this_year),
{
    match name_then_space(chars, "!complete") {
        None => none(),
        Some(i) => match match_project_ident(chars, i) {
            None => fail(Some(ParseCommandError::ProjectIdentFormat)),
            Some(j) => match space(chars, j) {
                None => fail(None),
                Some(k) => match match_date(chars, k, this_year) {
                    Some(found) => got(Command::Complete(piece(expr, i, j), found.0)),
                    None => got(Command::Complete(piece(expr, i, j), now)),
                },
            },
        },
    }
}

/// `!note`, the name of a project and the rest of the text.
fn note(expr: &str, chars: &Vec<char>) -> (t: Tried)
    requires
        chars@ == expr@,
    ensures
        t@ == try_note(chars@),
{
    match name_then_space(chars, "!note") {
        None => none(),
        Some(i) => match match_project_ident(chars, i) {
            None => fail(Some(ParseCommandError::ProjectIdentFormat)),
            Some(j) => match space(chars, j) {
                None => fail(None),
                Some(k) => {
                    if k < chars.len() {
                        let content = piece(expr, k, chars.len());
                        assert(content@ =~= chars@.skip(k as int));
                        got(Command::Note(piece(expr, i, j), content))
                    } else {
                        fail(None)
                    }
                },
            },
        },
    }
}

// ---------------------------------------------------------------------------
// The command

/// What came of trying each command on `s`, in the order in which they
/// are tried.
pub open spec fn tries(s: Seq<char>, now: SystemTime, this_year: Option<i32>) -> Seq<TriedView> {
    seq![try_ping(s), try_help(s), try_add(s), try_start(s), try_done(s), try_stop(s), try_list(s), try_digest(s), try_since(s, now, this_year), try_more(s), try_switch(s), try_deadline(s, this_year), try_provision(s), try_complete(s, now, this_year), try_note(s)]
}

/// What is made of `tries` from the one at `k` on, where those before it
/// were no command: the first that is a command is the command. Where none
/// is, what is reported is what was found wrong last, or that something is
/// wrong where nothing was found; and that there is no such command where
/// no name was found (`named` and `error` hold what those before `k` found).
pub open spec fn settle(
    tries: Seq<TriedView>,
    k: int,
    named: bool,
    error: Option<ParseCommandError>,
) -> Result<CommandView, ParseCommandError>
    decreases tries.len() - k,
{
    if k < 0 || k >= tries.len() {
        if !named {
            Err(ParseCommandError::NotFound)
        } else {
            match error {
                Some(e) => Err(e),
                None => Err(ParseCommandError::Mysterious),
            }
        }
    } else {
        match tries[k].out {
            Some(c) => Ok(c),
            None => settle(
                tries,
                k + 1,
                named || tries[k].named,
                match tries[k].error {
                    Some(e) => Some(e),
                    None => error,
                },
            ),
        }
    }
}

/// The year of `now` on the UTC calendar; `None` where `now` lies beyond
/// what calendars can name.
pub open spec fn year_at(now: SystemTime) -> Option<i32> {
    if now.millis / 1000 <= MAX_SECS {
        Some(local_year((now.millis / 1000) as i64, 0))
    } else {
        None
    }
}

/// The command that the text `s` is at `now`, or why it is none.
pub open spec fn parse_spec(s: Seq<char>, now: SystemTime) -> Result<CommandView, ParseCommandError> {
    settle(tries(s, now, year_at(now)), 0, false, None)
}

/// The number of commands.
pub const COMMANDS: usize = 15;

/// What comes of trying on `expr` the command that is tried as number `k`.
fn try_at(expr: &str, chars: &Vec<char>, now: SystemTime, this_year: Option<i32>, k: usize) -> (t:
    Tried)
    requires
        chars@ == expr@,
        k < COMMANDS,
    ensures
        t@ == tries(chars@, now, this_year)[k as int],
{
    if k == 0 {
        return ping(expr, chars);
    }
    if k == 1 {
        return help(expr, chars);
    }
    if k == 2 {
        return self::add(expr, chars);
    }
    if k == 3 {
        return start(expr, chars);
    }
    if k == 4 {
        return done(expr, chars);
    }
    if k == 5 {
        return stop(expr, chars);
    }
    if k == 6 {
        return list(expr, chars);
    }
    if k == 7 {
        return digest(expr, chars);
    }
    if k == 8 {
        return since(expr, chars, now, this_year);
    }
    if k == 9 {
        return more(expr, chars);
    }
    if k == 10 {
        return switch(expr, chars);
    }
    if k == 11 {
        return deadline(expr, chars, this_year);
    }
    if k == 12 {
        return provision(expr, chars);
    }
    if k == 13 {
        return complete(expr, chars, now, this_year);
    }
    note(expr, chars)
}

/// The command that `expr` is at `now`, or why it is none.
pub fn parse_command_at(expr: &str, now: SystemTime) -> (found: Result<Command, ParseCommandError>)
    ensures
        match found {
            Ok(c) => parse_spec(expr@, now) == Ok::<CommandView, ParseCommandError>(c@),
            Err(e) => parse_spec(expr@, now) == Err::<CommandView, ParseCommandError>(e),
        },
{
    let chars = to_chars(expr);
    let this_year = this_year(now);
    let ghost tries = tries(expr@, now, this_year);
    let mut named = false;
    let mut error: Option<ParseCommandError> = None;
    let mut k: usize = 0;
    while k < COMMANDS
        invariant
            k <= COMMANDS,
            chars@ == expr@,
            tries == self::tries(expr@, now, this_year),
            tries.len() == COMMANDS,
            parse_spec(expr@, now) == settle(tries, k as int, named, error),
            this_year == year_at(now),
        decreases COMMANDS - k,
    {
        let tried = try_at(expr, &chars, now, this_year, k);
        match tried.out {
            Some(command) => {
                return Ok(command);
            },
            None => {},
        }
        named = named || tried.named;
        error = match tried.error {
            Some(e) => Some(e),
            None => error,
        };
        k = k + 1;
    }
    if !named {
        Err(ParseCommandError::NotFound)
    } else {
        match error {
            Some(e) => Err(e),
            None => Err(ParseCommandError::Mysterious),
        }
    }
}

/// The command that `expr` is, at the time that the clock of the machine
/// shows, or why it is none.
pub fn parse_command(expr: &str) -> (found: Result<Command, ParseCommandError>)
    ensures
        exists|now: SystemTime|
            match found {
                Ok(c) => #[trigger] parse_spec(expr@, now) == Ok::<
                    CommandView,
                    ParseCommandError,
                >(c@),
                Err(e) => parse_spec(expr@, now) == Err::<CommandView, ParseCommandError>(e),
            },
{
    let now = current_time();
    let found = parse_command_at(expr, now);
    assert(match found {
        Ok(c) => parse_spec(expr@, now) == Ok::<CommandView, ParseCommandError>(c@),
        Err(e) => parse_spec(expr@, now) == Err::<CommandView, ParseCommandError>(e),
    });
    found
}

} // verus!
