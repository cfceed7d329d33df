use inbox_view::text::chars_of;
use inbox_view::text::decimal_string;
use inbox_view::text::pad_left_string;
use inbox_view::text::repeat_string;
use inbox_view::time::age_label;
use inbox_view::time::age_of;
use inbox_view::time::approx_epoch_seconds;
use inbox_view::time::format_time_ago;
use inbox_view::time::parse_numeral;
use inbox_view::time::parse_timestamp;
use inbox_view::time::split_fields;
use inbox_view::time::time_ago_at;
use inbox_view::time::unix_now;
use inbox_view::time::Stamp;

/// 2026-01-14 12:33 by the coarse calendar: (56 * 365 + 0 * 30 + 14) days,
/// 12 hours and 33 minutes.
const SAMPLE: &str = "2026-01-14T12:33:38";
const SAMPLE_SECONDS: u64 = 20454 * 86400 + 12 * 3600 + 33 * 60;

fn field(text: &str) -> Vec<char> {
    text.chars().collect()
}

#[test]
fn age_label_at_the_bucket_boundaries() {
    assert_eq!(age_label(0), "now");
    assert_eq!(age_label(59), "now");
    assert_eq!(age_label(60), "1m");
    assert_eq!(age_label(3599), "59m");
    assert_eq!(age_label(3600), "1h");
    assert_eq!(age_label(86399), "23h");
    assert_eq!(age_label(86400), "1d");
}

#[test]
fn age_label_uses_floor_division() {
    assert_eq!(age_label(119), "1m");
    assert_eq!(age_label(120), "2m");
    assert_eq!(age_label(7199), "1h");
    assert_eq!(age_label(2 * 86400 - 1), "1d");
    assert_eq!(age_label(13 * 86400 + 5), "13d");
    assert_eq!(age_label(u64::MAX), format!("{}d", u64::MAX / 86400));
}

#[test]
fn sample_timestamp_has_the_coarse_instant() {
    assert_eq!(SAMPLE_SECONDS, 1_767_270_780);
    let stamp = parse_timestamp(SAMPLE).unwrap();
    assert_eq!(stamp, Stamp { year: 2026, month: 1, day: 14, hour: 12, minute: 33 });
    assert_eq!(approx_epoch_seconds(&stamp), 1_767_270_780);
}

#[test]
fn epoch_seconds_count_365_day_years_and_30_day_months() {
    let first = Stamp { year: 1970, month: 1, day: 1, hour: 0, minute: 0 };
    assert_eq!(approx_epoch_seconds(&first), 86400);
    let later = Stamp { year: 1971, month: 3, day: 2, hour: 1, minute: 1 };
    assert_eq!(approx_epoch_seconds(&later), (365 + 60 + 2) * 86400 + 3600 + 60);
    let before = Stamp { year: 1969, month: 12, day: 31, hour: 0, minute: 0 };
    assert_eq!(approx_epoch_seconds(&before), (-365 + 330 + 31) * 86400);
    let far = Stamp {
        year: u32::MAX,
        month: u32::MAX,
        day: u32::MAX,
        hour: u32::MAX,
        minute: u32::MAX,
    };
    let m = u32::MAX as i64;
    assert_eq!(
        approx_epoch_seconds(&far),
        ((m - 1970) * 365 + (m - 1) * 30 + m) * 86400 + m * 3600 + m * 60
    );
}

#[test]
fn time_ago_at_buckets_the_distance_to_the_clock() {
    assert_eq!(time_ago_at(SAMPLE, SAMPLE_SECONDS), "now");
    assert_eq!(time_ago_at(SAMPLE, SAMPLE_SECONDS + 59), "now");
    assert_eq!(time_ago_at(SAMPLE, SAMPLE_SECONDS + 60), "1m");
    assert_eq!(time_ago_at(SAMPLE, SAMPLE_SECONDS + 5 * 60 + 1), "5m");
    assert_eq!(time_ago_at(SAMPLE, SAMPLE_SECONDS + 3 * 3600), "3h");
    assert_eq!(time_ago_at(SAMPLE, SAMPLE_SECONDS + 2 * 86400 + 7), "2d");
}

#[test]
fn time_ago_at_is_empty_for_an_instant_ahead_of_the_clock() {
    assert_eq!(time_ago_at(SAMPLE, SAMPLE_SECONDS - 1), "");
    assert_eq!(time_ago_at(SAMPLE, 0), "");
    assert_eq!(time_ago_at("4294967295-01-01T00:00:00", 100_000_000_000_000_000), "");
    assert_eq!(
        time_ago_at("4294967295-01-01T00:00:00", 135_446_026_489_286_400),
        "now"
    );
}

#[test]
fn time_ago_at_ignores_the_seconds_field() {
    assert_eq!(time_ago_at("2026-01-14T12:33:00", SAMPLE_SECONDS), "now");
    assert_eq!(time_ago_at("2026-01-14T12:33:59", SAMPLE_SECONDS), "now");
    assert_eq!(time_ago_at("2026-01-14T12:33", SAMPLE_SECONDS + 60), "1m");
}

#[test]
fn time_ago_at_reaches_back_before_the_epoch() {
    assert_eq!(time_ago_at("1969-12-31T00:00:00", 0), "4d");
    assert_eq!(time_ago_at("1970-00-00T00:00:00", 0), "30d");
    assert_eq!(
        time_ago_at("0-0-0T0:0", u64::MAX),
        format!("{}d", (u64::MAX as u128 + 719_080 * 86400) / 86400)
    );
}

#[test]
fn malformed_timestamps_have_the_empty_label() {
    let malformed = [
        "",
        "garbage",
        "T",
        "2026-01-14",
        "2026-01-14T",
        "T12:33:38",
        "2026-01T12:33:38",
        "2026-01-14-05T12:33:38",
        "2026-01-14T12",
        "2026-01-14T12:33:38:10",
        "2026-xx-14T12:33:38",
        "2026-01-14T12:33:xx",
        "2026-01-14T12::38",
        "2026--14T12:33:38",
        "2026-01-14T12:33:38Z",
        "2026-01-14T12:33:38.250",
        "2026-01-14 12:33:38",
        "2026-01-14t12:33:38",
        "2026-01-14T12:33:38T",
        "2026-01-14T12:33:38T00:00:00",
        " 2026-01-14T12:33:38",
        "2026-01-14T12:33:38 ",
        "2026-01-14T-12:33:38",
        "4294967296-01-14T12:33:38",
        "2026-01-14T12:33:99999999999",
        "２０２６-01-14T12:33:38",
    ];
    for timestamp in malformed {
        assert_eq!(parse_timestamp(timestamp), None, "{:?}", timestamp);
        assert_eq!(time_ago_at(timestamp, SAMPLE_SECONDS + 86400), "", "{:?}", timestamp);
        assert_eq!(time_ago_at(timestamp, u64::MAX), "", "{:?}", timestamp);
        assert_eq!(format_time_ago(timestamp), "", "{:?}", timestamp);
    }
}

#[test]
fn numerals_may_carry_a_plus_sign_and_leading_zeros() {
    assert_eq!(
        parse_timestamp("+2026-001-0014T+12:0033:+7"),
        Some(Stamp { year: 2026, month: 1, day: 14, hour: 12, minute: 33 })
    );
    assert_eq!(time_ago_at("+2026-001-0014T+12:0033:+7", SAMPLE_SECONDS + 3600), "1h");
}

#[test]
fn parse_numeral_reads_unsigned_32_bit_numbers() {
    assert_eq!(parse_numeral(&field("0")), Some(0));
    assert_eq!(parse_numeral(&field("007")), Some(7));
    assert_eq!(parse_numeral(&field("+5")), Some(5));
    assert_eq!(parse_numeral(&field("4294967295")), Some(u32::MAX));
    assert_eq!(parse_numeral(&field("000000000000000000004294967295")), Some(u32::MAX));
    assert_eq!(parse_numeral(&field("4294967296")), None);
    assert_eq!(parse_numeral(&field("99999999999999999999999999999")), None);
    assert_eq!(parse_numeral(&field("")), None);
    assert_eq!(parse_numeral(&field("+")), None);
    assert_eq!(parse_numeral(&field("++5")), None);
    assert_eq!(parse_numeral(&field("-5")), None);
    assert_eq!(parse_numeral(&field("5+")), None);
    assert_eq!(parse_numeral(&field("1a")), None);
    assert_eq!(parse_numeral(&field(" 1")), None);
    assert_eq!(parse_numeral(&field("1.5")), None);
    assert_eq!(parse_numeral(&field("٣")), None);
}

#[test]
fn split_fields_has_one_piece_more_than_separators() {
    assert_eq!(split_fields(&field(""), '-'), vec![field("")]);
    assert_eq!(split_fields(&field("abc"), '-'), vec![field("abc")]);
    assert_eq!(split_fields(&field("a-b"), '-'), vec![field("a"), field("b")]);
    assert_eq!(
        split_fields(&field("-a--b-"), '-'),
        vec![field(""), field("a"), field(""), field("b"), field("")]
    );
    assert_eq!(
        split_fields(&field("2026-01-14T12:33:38"), 'T'),
        vec![field("2026-01-14"), field("12:33:38")]
    );
}

#[test]
fn format_time_ago_reads_the_system_clock() {
    let now = unix_now().expect("the clock stands after the epoch");
    assert!(now > 1_600_000_000);
    assert_eq!(format_time_ago("9999-01-01T00:00:00"), "");
    let days = (now - 86400) / 86400;
    let label = format_time_ago("1970-01-01T00:00:00");
    assert!(
        label == format!("{}d", days) || label == format!("{}d", days + 1),
        "{:?}",
        label
    );
}

#[test]
fn age_of_is_empty_without_a_timestamp_or_a_clock() {
    let stamp = Some(String::from(SAMPLE));
    assert_eq!(age_of(&stamp, Some(SAMPLE_SECONDS + 120)), "2m");
    assert_eq!(age_of(&stamp, None), "");
    assert_eq!(age_of(&None, Some(SAMPLE_SECONDS + 120)), "");
    assert_eq!(age_of(&Some(String::from("yesterday")), Some(SAMPLE_SECONDS)), "");
}

#[test]
fn decimal_string_writes_numbers_without_padding() {
    assert_eq!(decimal_string(0), "0");
    assert_eq!(decimal_string(7), "7");
    assert_eq!(decimal_string(10), "10");
    assert_eq!(decimal_string(1_000_000), "1000000");
    assert_eq!(decimal_string(u64::MAX), "18446744073709551615");
}

#[test]
fn pad_left_string_right_aligns_by_characters() {
    assert_eq!(pad_left_string("1", 3), "  1");
    assert_eq!(pad_left_string("12", 3), " 12");
    assert_eq!(pad_left_string("123", 3), "123");
    assert_eq!(pad_left_string("1234", 3), "1234");
    assert_eq!(pad_left_string("é", 3), "  é");
    assert_eq!(pad_left_string("", 0), "");
}

#[test]
fn repeat_string_and_chars_of_keep_every_character() {
    assert_eq!(repeat_string("━", 3), "━━━");
    assert_eq!(repeat_string("ab", 2), "abab");
    assert_eq!(repeat_string("x", 0), "");
    assert_eq!(chars_of("héllo"), vec!['h', 'é', 'l', 'l', 'o']);
    assert_eq!(chars_of(""), Vec::<char>::new());
}
