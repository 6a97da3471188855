use pdoro::text::{decimal_string, split, text_eq, to_chars, two_digit_string};
use pdoro::time::{Time, TimeFormat};
use pdoro::utils::{get_seconds_from_fromat, get_time_format};

#[test]
fn time_new_units() {
    assert_eq!(
        Time::new("25m"),
        Ok(Time { format: TimeFormat::Minutes, value: 25 })
    );
    assert_eq!(
        Time::new("1H"),
        Ok(Time { format: TimeFormat::Hours, value: 1 })
    );
    assert_eq!(
        Time::new("90S"),
        Ok(Time { format: TimeFormat::Seconds, value: 90 })
    );
    assert_eq!(
        Time::new("007M"),
        Ok(Time { format: TimeFormat::Minutes, value: 7 })
    );
}

#[test]
fn time_new_ignores_what_follows_the_unit() {
    assert_eq!(
        Time::new("15m30s"),
        Ok(Time { format: TimeFormat::Minutes, value: 15 })
    );
    assert_eq!(
        Time::new("2h!"),
        Ok(Time { format: TimeFormat::Hours, value: 2 })
    );
}

#[test]
fn time_new_invalid_format() {
    for bad in [
        "", "m", "h5", "25", "25x", "2 5m", " 5m", "+5m", "-5m", "1.5h", "5\u{663}m", "\u{663}h",
        "99999999999s", "4294967296s",
    ] {
        assert_eq!(Time::new(bad), Err("Invalid time format".to_string()));
    }
}

#[test]
fn time_new_invalid_length() {
    for bad in ["0s", "0m", "0h", "10h", "600m", "36000s", "4294967295s"] {
        assert_eq!(
            Time::new(bad),
            Err("Invalid length: input must be in range (1s < input < 10h)".to_string())
        );
    }
}

#[test]
fn time_new_limits() {
    assert_eq!(Time::new("9h").unwrap().get_seconds(), 32400);
    assert_eq!(Time::new("599m").unwrap().get_seconds(), 35940);
    assert_eq!(Time::new("35999s").unwrap().get_seconds(), 35999);
    assert_eq!(Time::new("1s").unwrap().get_seconds(), 1);
}

#[test]
fn time_parsed() {
    assert_eq!(
        Time::parsed(TimeFormat::Hours, "3"),
        Time { format: TimeFormat::Hours, value: 3 }
    );
    assert_eq!(
        Time::parsed(TimeFormat::Seconds, "4294967295"),
        Time { format: TimeFormat::Seconds, value: 4294967295 }
    );
}

#[test]
fn time_seconds() {
    assert_eq!(Time { format: TimeFormat::Hours, value: 2 }.get_seconds(), 7200);
    assert_eq!(Time { format: TimeFormat::Minutes, value: 25 }.get_seconds(), 1500);
    assert_eq!(Time { format: TimeFormat::Seconds, value: 42 }.get_seconds(), 42);
    assert_eq!(Time { format: TimeFormat::Hours, value: 0 }.get_seconds(), 0);
}

#[test]
fn clock_from_seconds() {
    assert_eq!(Time::get_clock_from_seconds(&0), "00");
    assert_eq!(Time::get_clock_from_seconds(&5), "05");
    assert_eq!(Time::get_clock_from_seconds(&59), "59");
    assert_eq!(Time::get_clock_from_seconds(&60), "01:00");
    assert_eq!(Time::get_clock_from_seconds(&1499), "24:59");
    assert_eq!(Time::get_clock_from_seconds(&3599), "59:59");
    assert_eq!(Time::get_clock_from_seconds(&3600), "01:00:00");
    assert_eq!(Time::get_clock_from_seconds(&3661), "01:01:01");
    assert_eq!(Time::get_clock_from_seconds(&35999), "09:59:59");
    assert_eq!(Time::get_clock_from_seconds(&360000), "100:00:00");
    assert_eq!(Time::get_clock_from_seconds(&4294967295), "1193046:28:15");
}

#[test]
fn lenient_reader_units() {
    let t = get_time_format("25m");
    assert_eq!((t.format(), t.value()), (pdoro::utils::TimeFormat::Minutes, 25));
    assert_eq!(get_seconds_from_fromat(t), 1500);
    let t = get_time_format("2H");
    assert_eq!((t.format(), t.value()), (pdoro::utils::TimeFormat::Hours, 2));
    assert_eq!(get_seconds_from_fromat(t), 7200);
    let t = get_time_format("45s and more");
    assert_eq!((t.format(), t.value()), (pdoro::utils::TimeFormat::Seconds, 45));
    assert_eq!(get_seconds_from_fromat(t), 45);
    let t = get_time_format("+5m");
    assert_eq!((t.format(), t.value()), (pdoro::utils::TimeFormat::Minutes, 5));
    let t = get_time_format("0h");
    assert_eq!((t.format(), t.value()), (pdoro::utils::TimeFormat::Hours, 0));
    assert_eq!(get_seconds_from_fromat(t), 0);
}

#[test]
fn lenient_reader_invalid() {
    for bad in ["", "h", "25", "x5m", "5xm", "5 m", " 5m", "-5m", "1.5h", "4294967296s"] {
        let t = get_time_format(bad);
        assert_eq!((t.format(), t.value()), (pdoro::utils::TimeFormat::Invalid, 0));
        assert_eq!(get_seconds_from_fromat(t), 0);
    }
    let t = pdoro::utils::Time::new_invalid();
    assert_eq!((t.format(), t.value()), (pdoro::utils::TimeFormat::Invalid, 0));
}

#[test]
fn lenient_time_new() {
    let t = pdoro::utils::Time::new(pdoro::utils::TimeFormat::Minutes, "12");
    assert_eq!((t.format(), t.value()), (pdoro::utils::TimeFormat::Minutes, 12));
    assert_eq!(get_seconds_from_fromat(t), 720);
}

#[test]
fn decimal_numerals() {
    assert_eq!(decimal_string(0), "0");
    assert_eq!(decimal_string(9), "9");
    assert_eq!(decimal_string(10), "10");
    assert_eq!(decimal_string(304), "304");
    assert_eq!(decimal_string(4294967295), "4294967295");
    assert_eq!(two_digit_string(0), "00");
    assert_eq!(two_digit_string(7), "07");
    assert_eq!(two_digit_string(10), "10");
    assert_eq!(two_digit_string(123), "123");
}

#[test]
fn text_helpers() {
    assert_eq!(to_chars("a\u{e9}\u{4f60}"), vec!['a', '\u{e9}', '\u{4f60}']);
    assert!(text_eq("start", "start"));
    assert!(!text_eq("start", "Start"));
    assert!(!text_eq("start", "start "));
    assert!(text_eq("", ""));
    assert_eq!(split("a,b,,c", ','), vec!["a", "b", "", "c"]);
    assert_eq!(split("", ','), vec![""]);
    assert_eq!(split(",", ','), vec!["", ""]);
}
