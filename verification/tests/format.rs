use weather_report::celsius_token;
use weather_report::decimal_padded;
use weather_report::format_datetime;
use weather_report::format_report;
use weather_report::rain_section_lines;
use weather_report::temperature_line;
use weather_report::CelsiusValue;
use weather_report::Detail;
use weather_report::ForecastDay;
use weather_report::Location;
use weather_report::RainChance;
use weather_report::TemperatureRange;
use weather_report::WeatherReport;

fn cv(s: &str) -> CelsiusValue {
    CelsiusValue { celsius: Some(s.to_string()) }
}

fn empty_rain() -> RainChance {
    RainChance { t00_06: None, t06_12: None, t12_18: None, t18_24: None }
}

fn sample_day() -> ForecastDay {
    ForecastDay {
        date: "2024-01-15".to_string(),
        date_label: "今日".to_string(),
        telop: "晴れ".to_string(),
        detail: Detail {
            weather: Some("晴れ　所により　雪".to_string()),
            wind: Some("北の風".to_string()),
            wave: Some("1メートル".to_string()),
        },
        temperature: TemperatureRange { min: Some(cv("2")), max: Some(cv("10")) },
        chance_of_rain: RainChance {
            t00_06: Some("10%".to_string()),
            t06_12: Some("20%".to_string()),
            t12_18: Some("30%".to_string()),
            t18_24: Some("40%".to_string()),
        },
    }
}

fn sample_report(day: ForecastDay) -> WeatherReport {
    WeatherReport {
        public_time: "2024-01-15T06:00:00+09:00".to_string(),
        forecasts: vec![day],
        location: Location { city: "名古屋".to_string(), prefecture: "愛知県".to_string() },
    }
}

#[test]
fn formats_full_report_with_every_line() {
    let report = sample_report(sample_day());
    let lines = format_report(&report).ok().unwrap();
    let expected = vec![
        "===========================================".to_string(),
        "📍 地域: 愛知県 - 名古屋".to_string(),
        "🕐 発表時刻: 2024年01月15日 06時00分".to_string(),
        "===========================================".to_string(),
        "【今日（2024-01-15）】".to_string(),
        "  ☀️ 天気: 晴れ".to_string(),
        "  📝 詳細: 晴れ　所により　雪".to_string(),
        "  🌡️ 気温: 最低2℃ / 最高10℃".to_string(),
        "  ☔ 降水確率:".to_string(),
        "     00-06時: 10%".to_string(),
        "     06-12時: 20%".to_string(),
        "     12-18時: 30%".to_string(),
        "     18-24時: 40%".to_string(),
        "  💨 風: 北の風".to_string(),
        "  🌊 波: 1メートル".to_string(),
        "===========================================".to_string(),
    ];
    assert_eq!(lines, expected);
}

#[test]
fn absent_optional_fields_emit_no_line() {
    let mut day = sample_day();
    day.detail = Detail { weather: None, wind: None, wave: None };
    day.chance_of_rain = empty_rain();
    let report = sample_report(day);
    let lines = format_report(&report).ok().unwrap();
    assert_eq!(lines.len(), 9);
    for line in &lines {
        assert!(!line.contains("詳細"));
        assert!(!line.contains("風"));
        assert!(!line.contains("波"));
        assert!(!line.contains("時:"));
    }
    // The temperature line is still there, with both values present.
    assert_eq!(lines[6], "  🌡️ 気温: 最低2℃ / 最高10℃");
}

#[test]
fn line_count_matches_present_optional_fields() {
    let mut day = sample_day();
    day.detail.wind = None;
    day.chance_of_rain.t06_12 = None;
    day.chance_of_rain.t18_24 = None;
    let report = sample_report(day);
    let lines = format_report(&report).ok().unwrap();
    // 9 fixed lines + weather + wave + two rain windows.
    assert_eq!(lines.len(), 13);
}

#[test]
fn empty_forecasts_is_an_error() {
    let report = WeatherReport {
        public_time: "2024-01-15T06:00:00+09:00".to_string(),
        forecasts: vec![],
        location: Location { city: "名古屋".to_string(), prefecture: "愛知県".to_string() },
    };
    assert!(format_report(&report).is_err());
}

#[test]
fn temperature_line_always_has_two_tokens() {
    let both = TemperatureRange { min: Some(cv("2")), max: Some(cv("10")) };
    assert_eq!(temperature_line(&both), "  🌡️ 気温: 最低2℃ / 最高10℃");
    let neither = TemperatureRange { min: None, max: None };
    assert_eq!(temperature_line(&neither), "  🌡️ 気温: 最低-℃ / 最高-℃");
    let min_only = TemperatureRange { min: Some(cv("2")), max: None };
    assert_eq!(temperature_line(&min_only), "  🌡️ 気温: 最低2℃ / 最高-℃");
    let empty_wrapper = TemperatureRange {
        min: Some(CelsiusValue { celsius: None }),
        max: None,
    };
    assert_eq!(temperature_line(&empty_wrapper), "  🌡️ 気温: 最低-℃ / 最高-℃");
}

#[test]
fn min_absent_max_present_renders_placeholder_then_value() {
    let t = TemperatureRange { min: None, max: Some(cv("5")) };
    assert_eq!(temperature_line(&t), "  🌡️ 気温: 最低-℃ / 最高5℃");
}

#[test]
fn celsius_token_substitutes_placeholder() {
    assert_eq!(celsius_token(&Some(cv("7"))), "7");
    assert_eq!(celsius_token(&Some(CelsiusValue { celsius: None })), "-");
    assert_eq!(celsius_token(&None), "-");
}

#[test]
fn rain_lines_keep_fixed_window_order() {
    let c = RainChance {
        t00_06: None,
        t06_12: Some("20%".to_string()),
        t12_18: None,
        t18_24: Some("40%".to_string()),
    };
    let lines = rain_section_lines(&c);
    assert_eq!(lines, vec!["     06-12時: 20%".to_string(), "     18-24時: 40%".to_string()]);
    let all = RainChance {
        t00_06: Some("10%".to_string()),
        t06_12: Some("20%".to_string()),
        t12_18: Some("30%".to_string()),
        t18_24: Some("40%".to_string()),
    };
    let lines = rain_section_lines(&all);
    assert_eq!(
        lines,
        vec![
            "     00-06時: 10%".to_string(),
            "     06-12時: 20%".to_string(),
            "     12-18時: 30%".to_string(),
            "     18-24時: 40%".to_string(),
        ]
    );
}

#[test]
fn single_rain_window_renders_exactly_one_line() {
    let c = RainChance {
        t00_06: None,
        t06_12: None,
        t12_18: Some("30%".to_string()),
        t18_24: None,
    };
    let lines = rain_section_lines(&c);
    assert_eq!(lines, vec!["     12-18時: 30%".to_string()]);
}

#[test]
fn no_rain_window_renders_no_line() {
    assert!(rain_section_lines(&empty_rain()).is_empty());
}

#[test]
fn timestamp_renders_tokyo_local_time() {
    assert_eq!(format_datetime("2024-01-15T06:00:00+09:00"), "2024年01月15日 06時00分");
}

#[test]
fn timestamp_converts_other_offsets_to_tokyo() {
    // Midnight UTC is nine in the morning in Tokyo.
    assert_eq!(format_datetime("2024-01-15T00:00:00+00:00"), "2024年01月15日 09時00分");
    // An offset can move the date as well as the time.
    assert_eq!(format_datetime("2024-12-31T20:30:00-05:00"), "2025年01月01日 10時30分");
}

#[test]
fn timestamp_formatting_is_deterministic() {
    let input = "2024-01-15T06:00:00+09:00";
    assert_eq!(format_datetime(input), format_datetime(input));
    let bad = "not-a-date";
    assert_eq!(format_datetime(bad), format_datetime(bad));
}

#[test]
fn invalid_timestamps_fall_back_to_the_input() {
    assert_eq!(format_datetime(""), "");
    assert_eq!(format_datetime("not-a-date"), "not-a-date");
    assert_eq!(
        format_datetime("2024-13-40T99:99:99+09:00"),
        "2024-13-40T99:99:99+09:00"
    );
}

#[test]
fn decimal_padding_pads_and_never_truncates() {
    assert_eq!(decimal_padded(5, 2), "05");
    assert_eq!(decimal_padded(0, 2), "00");
    assert_eq!(decimal_padded(2024, 4), "2024");
    assert_eq!(decimal_padded(7, 4), "0007");
    assert_eq!(decimal_padded(124, 2), "124");
    assert_eq!(decimal_padded(0, 0), "0");
}
