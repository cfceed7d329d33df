//! Relative ages of server timestamps.
//!
//! A timestamp has the fixed form `YYYY-MM-DDTHH:MM:SS`, without a time zone.
//! It is turned into seconds since the Unix epoch by a deliberately coarse
//! rule (every year has 365 days, every month 30), and the distance to the
//! present is shown in the largest unit that fits: `now`, minutes, hours or
//! days.

use crate::model::opt_text;
use crate::text::chars_of;
use crate::text::decimal;
use crate::text::decimal_string;
use crate::text::digit_char;
use crate::text::lemma_decimal_nonempty;
use crate::text::joined;
use std::time::Duration;
use std::time::SystemTime;
use std::time::UNIX_EPOCH;
use vstd::prelude::*;
use vstd::string::*;

verus! {

/// The pieces of `s` between the occurrences of `sep`. Read from the right:
/// a separator at the end opens a new empty piece, any other character
/// extends the last piece. So there is always one piece more than there are
/// separators, and the empty string has one (empty) piece.
pub open spec fn fields(s: Seq<char>, sep: char) -> Seq<Seq<char>>
    decreases s.len(),
{
    if s.len() == 0 {
        seq![Seq::empty()]
    } else {
        let before = fields(s.drop_last(), sep);
        if s.last() == sep {
            before.push(Seq::empty())
        } else {
            before.drop_last().push(before.last().push(s.last()))
        }
    }
}

/// How often `c` occurs in `s`.
pub open spec fn occurrences(s: Seq<char>, c: char) -> nat
    decreases s.len(),
{
    if s.len() == 0 {
        0
    } else if s.last() == c {
        occurrences(s.drop_last(), c) + 1
    } else {
        occurrences(s.drop_last(), c)
    }
}

/// Whether `c` is one of `0` to `9`.
pub open spec fn is_digit(c: char) -> bool {
    48 <= c as u32 <= 57
}

/// The value of the digit `c`; zero for any other character.
pub open spec fn digit_of(c: char) -> nat {
    if is_digit(c) {
        (c as u32 - 48) as nat
    } else {
        0
    }
}

/// Whether `s` holds digits only.
pub open spec fn is_digits(s: Seq<char>) -> bool {
    forall|i: int| 0 <= i < s.len() ==> is_digit(#[trigger] s[i])
}

/// The number that the digits of `s` write in base ten.
pub open spec fn digits_value(s: Seq<char>) -> nat
    decreases s.len(),
{
    if s.len() == 0 {
        0
    } else {
        digits_value(s.drop_last()) * 10 + digit_of(s.last())
    }
}

/// `s` without one leading plus sign.
pub open spec fn unsigned_part(s: Seq<char>) -> Seq<char> {
    if s.len() > 0 && s[0] == '+' {
        s.skip(1)
    } else {
        s
    }
}

/// The value of `s` read as an unsigned 32-bit number: an optional `+`, then
/// one or more digits, with a value of at most `u32::MAX`. Anything else is no
/// number.
pub open spec fn numeral(s: Seq<char>) -> Option<nat> {
    let body = unsigned_part(s);
    if body.len() > 0 && is_digits(body) && digits_value(body) <= u32::MAX {
        Some(digits_value(body))
    } else {
        None
    }
}

/// The numeric fields of a timestamp. The seconds are checked but not kept:
/// ages are counted from the full minute.
#[derive(Clone, Copy, Debug, PartialEq, Eq, Structural)]
pub struct Stamp {
    pub year: u32,
    pub month: u32,
    pub day: u32,
    pub hour: u32,
    pub minute: u32,
}

/// Whether each of the given fields is a number.
pub open spec fn all_numerals(parts: Seq<Seq<char>>) -> bool {
    forall|i: int| 0 <= i < parts.len() ==> numeral(#[trigger] parts[i]) is Some
}

/// Whether `s` is a timestamp: exactly one `T`; before it three numbers
/// separated by `-`; after it two or three numbers separated by `:`.
pub open spec fn well_formed(s: Seq<char>) -> bool {
    let halves = fields(s, 'T');
    &&& halves.len() == 2
    &&& fields(halves[0], '-').len() == 3
    &&& all_numerals(fields(halves[0], '-'))
    &&& 2 <= fields(halves[1], ':').len() <= 3
    &&& all_numerals(fields(halves[1], ':'))
}

/// The fields of the timestamp `s`, or `None` where `s` is not well formed.
pub open spec fn stamp_of(s: Seq<char>) -> Option<Stamp> {
    if well_formed(s) {
        let halves = fields(s, 'T');
        let date = fields(halves[0], '-');
        let time = fields(halves[1], ':');
        Some(
            Stamp {
                year: numeral(date[0])->0 as u32,
                month: numeral(date[1])->0 as u32,
                day: numeral(date[2])->0 as u32,
                hour: numeral(time[0])->0 as u32,
                minute: numeral(time[1])->0 as u32,
            },
        )
    } else {
        None
    }
}

/// Days from the epoch to the stamp's date, counting 365 days for every year
/// and 30 for every month. Negative for dates before 1970.
pub open spec fn epoch_days(t: Stamp) -> int {
    (t.year - 1970) * 365 + (t.month - 1) * 30 + t.day
}

/// Seconds from the epoch to the stamp's minute.
pub open spec fn epoch_seconds(t: Stamp) -> int {
    epoch_days(t) * 86400 + t.hour * 3600 + t.minute * 60
}

/// The label for an age of `elapsed` seconds: `now` below a minute, then whole
/// minutes below an hour, whole hours below a day, and whole days.
pub open spec fn label_of_age(elapsed: nat) -> Seq<char> {
    if elapsed < 60 {
        "now"@
    } else if elapsed < 3600 {
        decimal(elapsed / 60) + "m"@
    } else if elapsed < 86400 {
        decimal(elapsed / 3600) + "h"@
    } else {
        decimal(elapsed / 86400) + "d"@
    }
}

/// The age label of the timestamp `s` at `now` seconds after the epoch. It is
/// empty where `s` is no timestamp and where its instant is still to come.
pub open spec fn time_ago(s: Seq<char>, now: nat) -> Seq<char> {
    match stamp_of(s) {
        None => Seq::empty(),
        Some(t) => if epoch_seconds(t) > now {
            Seq::empty()
        } else {
            label_of_age((now - epoch_seconds(t)) as nat)
        },
    }
}

/// The age label of an optional timestamp at an optional reading of the clock:
/// empty where either is missing.
pub open spec fn age_at(timestamp: Option<Seq<char>>, now: Option<u64>) -> Seq<char> {
    match (timestamp, now) {
        (Some(ts), Some(n)) => time_ago(ts, n as nat),
        _ => Seq::empty(),
    }
}

/// Splitting gives one piece more than there are separators.
pub proof fn lemma_fields_count(s: Seq<char>, sep: char)
    ensures
        fields(s, sep).len() == occurrences(s, sep) + 1,
        fields(s, sep).len() >= 1,
    decreases s.len(),
{
    if s.len() > 0 {
        lemma_fields_count(s.drop_last(), sep);
    }
}

/// No piece of a split holds the separator.
pub proof fn lemma_fields_hold_no_separator(s: Seq<char>, sep: char)
    ensures
        forall|i: int, j: int|
            0 <= i < fields(s, sep).len() && 0 <= j < fields(s, sep)[i].len() ==> fields(
                s,
                sep,
            )[i][j] != sep,
    decreases s.len(),
{
    if s.len() > 0 {
        lemma_fields_hold_no_separator(s.drop_last(), sep);
        lemma_fields_count(s.drop_last(), sep);
        let before = fields(s.drop_last(), sep);
        let after = fields(s, sep);
        assert forall|i: int, j: int|
            0 <= i < after.len() && 0 <= j < after[i].len() implies after[i][j] != sep by {
            if s.last() == sep {
                if i < before.len() {
                    assert(after[i] == before[i]);
                }
            } else {
                if i < before.len() - 1 {
                    assert(after[i] == before[i]);
                } else if j < before.last().len() {
                    assert(after[i][j] == before[i][j]);
                }
            }
        }
    }
}

/// Putting the separator back between the pieces of a split gives the text
/// that was split. Together with the law that no piece holds the separator,
/// this says what the pieces are.
pub proof fn lemma_fields_rejoin(s: Seq<char>, sep: char)
    ensures
        joined(fields(s, sep), seq![sep]) == s,
    decreases s.len(),
{
    if s.len() == 0 {
        assert(joined(fields(s, sep), seq![sep]) =~= s);
    } else {
        let rest = s.drop_last();
        lemma_fields_rejoin(rest, sep);
        lemma_fields_count(rest, sep);
        let before = fields(rest, sep);
        let after = fields(s, sep);
        if s.last() == sep {
            assert(after.drop_last() =~= before);
            assert(joined(after, seq![sep]) =~= rest + seq![sep] + Seq::<char>::empty());
            assert(rest + seq![sep] + Seq::<char>::empty() =~= s);
        } else if before.len() == 1 {
            assert(after =~= seq![before[0].push(s.last())]);
            assert(before[0].push(s.last()) =~= s);
        } else {
            assert(after.drop_last() =~= before.drop_last());
            assert(after.last() == before.last().push(s.last()));
            assert(joined(after, seq![sep]) =~= (joined(before.drop_last(), seq![sep]) + seq![
                sep,
            ] + before.last()).push(s.last()));
            assert(rest.push(s.last()) =~= s);
        }
    }
}

/// Reading is the inverse of writing: the decimal numeral of a number that
/// fits in 32 bits is read back as that number.
pub proof fn lemma_numeral_reads_decimal(n: nat)
    requires
        n <= u32::MAX,
    ensures
        numeral(decimal(n)) == Some(n),
{
    lemma_decimal_digits(n);
    lemma_decimal_nonempty(n);
    assert(is_digit(decimal(n)[0]));
}

proof fn lemma_decimal_digits(n: nat)
    ensures
        is_digits(decimal(n)),
        digits_value(decimal(n)) == n,
    decreases n,
{
    let last = digit_char(n % 10);
    assert(is_digit(last) && digit_of(last) == n % 10);
    if n < 10 {
        assert(decimal(n).drop_last() =~= Seq::<char>::empty());
        assert(digits_value(decimal(n).drop_last()) == 0);
    } else {
        lemma_decimal_digits(n / 10);
        assert(decimal(n).drop_last() =~= decimal(n / 10));
        assert(decimal(n).last() == last);
    }
}

/// The pieces that a list of character vectors stands for.
pub open spec fn pieces(parts: Seq<Vec<char>>) -> Seq<Seq<char>> {
    parts.map_values(|p: Vec<char>| p@)
}

/// Splits `chars` at every `sep`.
pub fn split_fields(chars: &Vec<char>, sep: char) -> (parts: Vec<Vec<char>>)
    ensures
        pieces(parts@) == fields(chars@, sep),
{
    let mut done: Vec<Vec<char>> = Vec::new();
    let mut current: Vec<char> = Vec::new();
    let mut i: usize = 0;
    proof {
        assert(chars@.take(0).len() == 0);
        assert(pieces(done@).push(current@) =~= fields(chars@.take(0), sep));
    }
    while i < chars.len()
        invariant
            i <= chars.len(),
            pieces(done@).push(current@) == fields(chars@.take(i as int), sep),
        decreases chars.len() - i,
    {
        let c = chars[i];
        proof {
            let upto = chars@.take(i + 1);
            assert(upto.drop_last() =~= chars@.take(i as int));
            assert(upto.last() == c);
        }
        let ghost before = pieces(done@).push(current@);
        if c == sep {
            done.push(current);
            current = Vec::new();
            assert(pieces(done@).push(current@) =~= before.push(Seq::empty()));
        } else {
            current.push(c);
            assert(pieces(done@).push(current@) =~= before.drop_last().push(
                before.last().push(c),
            ));
        }
        i = i + 1;
    }
    proof {
        assert(chars@.take(i as int) =~= chars@);
    }
    done.push(current);
    assert(pieces(done@) =~= fields(chars@, sep));
    done
}

/// A number written with more digits is no smaller than the number that its
/// first digits write.
pub proof fn lemma_digits_value_prefix(s: Seq<char>, k: int)
    requires
        0 <= k <= s.len(),
    ensures
        digits_value(s.take(k)) <= digits_value(s),
    decreases s.len() - k,
{
    if k == s.len() {
        assert(s.take(k) =~= s);
    } else {
        lemma_digits_value_prefix(s, k + 1);
        assert(s.take(k + 1).drop_last() =~= s.take(k));
        assert(digits_value(s.take(k + 1)) == digits_value(s.take(k)) * 10 + digit_of(
            s.take(k + 1).last(),
        ));
    }
}

/// Reads `field` as an unsigned 32-bit number.
pub fn parse_numeral(field: &Vec<char>) -> (value: Option<u32>)
    ensures
        match value {
            Some(v) => numeral(field@) == Some(v as nat),
            None => numeral(field@) is None,
        },
{
    let len = field.len();
    let start: usize = if len > 0 && field[0] == '+' {
        1
    } else {
        0
    };
    let ghost body = unsigned_part(field@);
    assert(body =~= field@.skip(start as int));
    if start == len {
        return None;
    }
    let mut acc: u64 = 0;
    let mut i: usize = start;
    proof {
        assert(body.take(0).len() == 0);
    }
    while i < len
        invariant
            start <= i <= len,
            len == field.len(),
            body == unsigned_part(field@),
            body == field@.skip(start as int),
            is_digits(body.take(i - start)),
            acc == digits_value(body.take(i - start)),
            acc <= u32::MAX,
        decreases len - i,
    {
        let c = field[i];
        let code: u32 = c as u32;
        if code < 48 || code > 57 {
            assert(!is_digit(body[i - start]));
            return None;
        }
        proof {
            let upto = body.take(i - start + 1);
            assert(upto.drop_last() =~= body.take(i - start));
            assert(upto.last() == c);
            assert forall|j: int| 0 <= j < upto.len() implies is_digit(#[trigger] upto[j]) by {
                if j < i - start {
                    assert(upto[j] == body.take(i - start)[j]);
                }
            }
        }
        acc = acc * 10 + (code - 48) as u64;
        if acc > 0xffff_ffff {
            proof {
                lemma_digits_value_prefix(body, i - start + 1);
            }
            return None;
        }
        i = i + 1;
    }
    proof {
        assert(body.take(i - start) =~= body);
    }
    Some(acc as u32)
}

/// Reads the fields of a timestamp.
pub fn parse_timestamp(timestamp: &str) -> (stamp: Option<Stamp>)
    ensures
        stamp == stamp_of(timestamp@),
{
    let chars = chars_of(timestamp);
    let halves = split_fields(&chars, 'T');
    if halves.len() != 2 {
        return None;
    }
    let date = split_fields(&halves[0], '-');
    let time = split_fields(&halves[1], ':');
    if date.len() != 3 || time.len() < 2 || time.len() > 3 {
        return None;
    }
    let ghost date_parts = fields(fields(timestamp@, 'T')[0], '-');
    let ghost time_parts = fields(fields(timestamp@, 'T')[1], ':');
    assert(pieces(date@) == date_parts);
    assert(pieces(time@) == time_parts);
    let year = parse_numeral(&date[0]);
    let month = parse_numeral(&date[1]);
    let day = parse_numeral(&date[2]);
    let hour = parse_numeral(&time[0]);
    let minute = parse_numeral(&time[1]);
    let second = if time.len() == 3 {
        parse_numeral(&time[2])
    } else {
        Some(0)
    };
    proof {
        assert(date_parts[0] == date@[0]@ && date_parts[1] == date@[1]@ && date_parts[2]
            == date@[2]@);
        assert(time_parts[0] == time@[0]@ && time_parts[1] == time@[1]@);
        if time.len() == 3 {
            assert(time_parts[2] == time@[2]@);
        }
    }
    match (year, month, day, hour, minute, second) {
        (Some(year), Some(month), Some(day), Some(hour), Some(minute), Some(_)) => {
            assert(well_formed(timestamp@));
            Some(Stamp { year, month, day, hour, minute })
        },
        _ => {
            assert(!all_numerals(date_parts) || !all_numerals(time_parts));
            None
        },
    }
}

/// Seconds from the epoch to the stamp's minute, by the coarse calendar.
pub fn approx_epoch_seconds(stamp: &Stamp) -> (secs: i64)
    ensures
        secs == epoch_seconds(*stamp),
{
    let year: i64 = stamp.year as i64;
    let month: i64 = stamp.month as i64;
    let day: i64 = stamp.day as i64;
    let hour: i64 = stamp.hour as i64;
    let minute: i64 = stamp.minute as i64;
    let days: i64 = (year - 1970) * 365 + (month - 1) * 30 + day;
    days * 86400 + hour * 3600 + minute * 60
}

/// The label for an age of `elapsed` seconds.
pub fn age_label(elapsed: u64) -> (label: String)
    ensures
        label@ == label_of_age(elapsed as nat),
{
    if elapsed < 60 {
        String::from_str("now")
    } else if elapsed < 3600 {
        let mut label = decimal_string(elapsed / 60);
        label.append("m");
        label
    } else if elapsed < 86400 {
        let mut label = decimal_string(elapsed / 3600);
        label.append("h");
        label
    } else {
        let mut label = decimal_string(elapsed / 86400);
        label.append("d");
        label
    }
}

/// The age label of `timestamp` for a clock that stands at `now` seconds
/// after the epoch.
pub fn time_ago_at(timestamp: &str, now: u64) -> (label: String)
    ensures
        label@ == time_ago(timestamp@, now as nat),
        !well_formed(timestamp@) ==> label@ == Seq::<char>::empty(),
{
    match parse_timestamp(timestamp) {
        None => String::new(),
        Some(stamp) => {
            let at: i64 = approx_epoch_seconds(&stamp);
            let gap: i128 = now as i128 - at as i128;
            if gap < 0 {
                String::new()
            } else if gap <= 0xffff_ffff_ffff_ffff {
                age_label(gap as u64)
            } else {
                let mut label = decimal_string((gap / 86400) as u64);
                label.append("d");
                label
            }
        },
    }
}

/// `std::time::SystemTime`: a reading of the system clock. Its contents are
/// not visible to the proofs.
#[verifier::external_type_specification]
#[verifier::external_body]
pub struct ExSystemTime(SystemTime);

/// `SystemTime::now`: the reading of the system clock. It differs from call
/// to call, so nothing is stated of it.
#[verifier::external_body]
fn clock_reading() -> SystemTime {
    SystemTime::now()
}

/// `SystemTime::duration_since`, taken against `UNIX_EPOCH`: the time from the
/// epoch to `reading`, or `None` for a reading before the epoch.
#[verifier::external_body]
fn since_epoch(reading: &SystemTime) -> Option<Duration> {
    reading.duration_since(UNIX_EPOCH).ok()
}

/// `Duration::as_secs`: the whole seconds of a duration.
#[verifier::external_body]
fn whole_seconds(duration: &Duration) -> u64 {
    duration.as_secs()
}

/// The system clock in whole seconds after the epoch; `None` where the clock
/// stands before the epoch.
pub fn unix_now() -> Option<u64> {
    let reading = clock_reading();
    match since_epoch(&reading) {
        Some(duration) => Some(whole_seconds(&duration)),
        None => None,
    }
}

/// The age label of an optional timestamp at a reading `now` of the clock;
/// empty where there is no timestamp or the clock gave no reading.
pub fn age_of(timestamp: &Option<String>, now: Option<u64>) -> (label: String)
    ensures
        label@ == age_at(opt_text(*timestamp), now),
{
    match (timestamp, now) {
        (Some(ts), Some(n)) => time_ago_at(ts.as_str(), n),
        _ => String::new(),
    }
}

/// The age label of `timestamp` by the system clock. A timestamp that is not
/// well formed has the empty label, and so has one whose instant lies ahead of
/// the clock.
pub fn format_time_ago(timestamp: &str) -> (label: String)
    ensures
        !well_formed(timestamp@) ==> label@ == Seq::<char>::empty(),
        label@ == Seq::<char>::empty() || exists|now: u64|
            label@ == time_ago(timestamp@, now as nat),
{
    match unix_now() {
        Some(now) => time_ago_at(timestamp, now),
        None => String::new(),
    }
}

} // verus!
