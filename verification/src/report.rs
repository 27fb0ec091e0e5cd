//! Rendering a weather report as display lines.
//!
//! The report has a fixed structure: a separator, a location line, the
//! announcement-time line, a separator, then the nearest forecast day
//! (header, weather summary, optional detail, the temperature line, the
//! chance-of-rain section, optional wind and wave lines), and a trailing
//! separator. An absent optional field simply omits its line; only the
//! temperature line substitutes a placeholder.

use vstd::prelude::*;
use vstd::string::StringExecFns;

use crate::model::CelsiusValue;
use crate::model::CelsiusValueView;
use crate::model::EmptyForecastError;
use crate::model::ForecastDayView;
use crate::model::Location;
use crate::model::LocationView;
use crate::model::RainChance;
use crate::model::RainChanceView;
use crate::model::TemperatureRange;
use crate::model::TemperatureRangeView;
use crate::model::WeatherReport;
use crate::model::WeatherReportView;
use crate::timestamp::format_datetime;
use crate::timestamp::spec_format_datetime;

verus! {

/// The separator between report sections.
pub open spec fn spec_separator_line() -> Seq<char> {
    "==========================================="@
}

/// The location line: prefecture, then city.
pub open spec fn spec_location_line(l: LocationView) -> Seq<char> {
    "📍 地域: "@ + l.prefecture + " - "@ + l.city
}

/// The announcement-time line, with the timestamp displayed as Tokyo local
/// time where it parses as RFC 3339.
pub open spec fn spec_time_line(public_time: Seq<char>) -> Seq<char> {
    "🕐 発表時刻: "@ + spec_format_datetime(public_time)
}

/// The forecast-day header: its label and its date.
pub open spec fn spec_header_line(d: ForecastDayView) -> Seq<char> {
    "【"@ + d.date_label + "（"@ + d.date + "）】"@
}

/// The weather-summary line of a forecast day.
pub open spec fn spec_telop_line(telop: Seq<char>) -> Seq<char> {
    "  ☀️ 天気: "@ + telop
}

/// The detail-weather line, emitted only when present.
pub open spec fn spec_weather_line(weather: Seq<char>) -> Seq<char> {
    "  📝 詳細: "@ + weather
}

/// The detail-wind line, emitted only when present.
pub open spec fn spec_wind_line(wind: Seq<char>) -> Seq<char> {
    "  💨 風: "@ + wind
}

/// The detail-wave line, emitted only when present.
pub open spec fn spec_wave_line(wave: Seq<char>) -> Seq<char> {
    "  🌊 波: "@ + wave
}

/// The display token for one side of the temperature range: the provider's
/// Celsius string where present, the placeholder `-` where either the side or
/// its Celsius string is absent.
pub open spec fn spec_temp_token(side: Option<CelsiusValueView>) -> Seq<char> {
    match side {
        Some(cv) => match cv.celsius {
            Some(s) => s,
            None => "-"@,
        },
        None => "-"@,
    }
}

/// The temperature line. Both sides always appear, placeholder-substituted
/// when absent.
pub open spec fn spec_temperature_line(t: TemperatureRangeView) -> Seq<char> {
    "  🌡️ 気温: 最低"@ + spec_temp_token(t.min) + "℃ / 最高"@ + spec_temp_token(t.max) + "℃"@
}

/// The header of the chance-of-rain section.
pub open spec fn spec_rain_header_line() -> Seq<char> {
    "  ☔ 降水確率:"@
}

/// The reported chance of rain for window `k` of the four fixed six-hour
/// windows, numbered from 0 (00-06) to 3 (18-24).
pub open spec fn spec_rain_window_value(c: RainChanceView, k: int) -> Option<Seq<char>> {
    if k == 0 {
        c.t00_06
    } else if k == 1 {
        c.t06_12
    } else if k == 2 {
        c.t12_18
    } else {
        c.t18_24
    }
}

/// The label of rain window `k`.
pub open spec fn spec_rain_window_label(k: int) -> Seq<char> {
    if k == 0 {
        "     00-06時: "@
    } else if k == 1 {
        "     06-12時: "@
    } else if k == 2 {
        "     12-18時: "@
    } else {
        "     18-24時: "@
    }
}

/// The line for rain window `k` with reported value `v`.
pub open spec fn spec_rain_line(k: int, v: Seq<char>) -> Seq<char> {
    spec_rain_window_label(k) + v
}

/// Zero or one line for rain window `k`: its line where the window is
/// reported, nothing where it is absent.
pub open spec fn spec_opt_rain_lines(c: RainChanceView, k: int) -> Seq<Seq<char>> {
    match spec_rain_window_value(c, k) {
        Some(v) => seq![spec_rain_line(k, v)],
        None => Seq::empty(),
    }
}

/// The chance-of-rain lines, one per reported window, in the fixed window
/// order 00-06, 06-12, 12-18, 18-24.
pub open spec fn spec_rain_lines(c: RainChanceView) -> Seq<Seq<char>> {
    spec_opt_rain_lines(c, 0) + spec_opt_rain_lines(c, 1) + spec_opt_rain_lines(c, 2)
        + spec_opt_rain_lines(c, 3)
}

/// One where the optional field is present, zero where it is absent.
pub open spec fn spec_present(o: Option<Seq<char>>) -> int {
    if o is Some {
        1
    } else {
        0
    }
}

/// How many of the four rain windows are reported.
pub open spec fn spec_rain_present_count(c: RainChanceView) -> int {
    spec_present(c.t00_06) + spec_present(c.t06_12) + spec_present(c.t12_18) + spec_present(
        c.t18_24,
    )
}

/// Where the line for rain window `k` stands among the chance-of-rain lines:
/// after one line for each reported window before it.
pub open spec fn spec_rain_index(c: RainChanceView, k: int) -> int {
    if k <= 0 {
        0
    } else if k == 1 {
        spec_present(c.t00_06)
    } else if k == 2 {
        spec_present(c.t00_06) + spec_present(c.t06_12)
    } else {
        spec_present(c.t00_06) + spec_present(c.t06_12) + spec_present(c.t12_18)
    }
}

/// The lines for one forecast day, in the fixed order: header, weather
/// summary, optional detail, temperature, the chance-of-rain section,
/// optional wind, optional wave.
pub open spec fn spec_day_lines(d: ForecastDayView) -> Seq<Seq<char>> {
    seq![spec_header_line(d), spec_telop_line(d.telop)] + (match d.detail.weather {
        Some(w) => seq![spec_weather_line(w)],
        None => Seq::empty(),
    }) + seq![spec_temperature_line(d.temperature), spec_rain_header_line()] + spec_rain_lines(
        d.chance_of_rain,
    ) + (match d.detail.wind {
        Some(w) => seq![spec_wind_line(w)],
        None => Seq::empty(),
    }) + (match d.detail.wave {
        Some(w) => seq![spec_wave_line(w)],
        None => Seq::empty(),
    })
}

/// All lines of a report whose `forecasts` is non-empty: the framing lines,
/// then the nearest (first) forecast day, then the trailing separator.
pub open spec fn spec_report_lines(v: WeatherReportView) -> Seq<Seq<char>> {
    seq![
        spec_separator_line(),
        spec_location_line(v.location),
        spec_time_line(v.public_time),
        spec_separator_line(),
    ] + spec_day_lines(v.forecasts[0]) + seq![spec_separator_line()]
}

/// How many optional fields of a forecast day are present: its three detail
/// texts and its reported rain windows.
pub open spec fn spec_optional_present_count(d: ForecastDayView) -> int {
    spec_present(d.detail.weather) + spec_present(d.detail.wind) + spec_present(d.detail.wave)
        + spec_rain_present_count(d.chance_of_rain)
}

/// The chance-of-rain section emits exactly one line per reported window:
/// none for an absent window, and as many lines as reported windows when all
/// four are present.
pub proof fn lemma_rain_lines_count(c: RainChanceView)
    ensures
        spec_rain_lines(c).len() == spec_rain_present_count(c),
{
}

/// A report with at least one forecast day always formats, to nine fixed
/// lines plus exactly one line per present optional field of that day: no
/// line is ever emitted for a field that is absent.
pub proof fn lemma_report_lines_count(v: WeatherReportView)
    requires
        v.forecasts.len() > 0,
    ensures
        spec_report_lines(v).len() == 9 + spec_optional_present_count(v.forecasts[0]),
{
    lemma_rain_lines_count(v.forecasts[0].chance_of_rain);
}

/// The temperature line always carries exactly two value-or-placeholder
/// tokens, whichever of the minimum and maximum is present: each token is the
/// provider's Celsius string where it exists and the one-character
/// placeholder `-` where it does not.
pub proof fn lemma_temperature_line_two_tokens(t: TemperatureRangeView)
    ensures
        spec_temperature_line(t) == "  🌡️ 気温: 最低"@ + spec_temp_token(t.min) + "℃ / 最高"@
            + spec_temp_token(t.max) + "℃"@,
        t.min is Some && t.min->Some_0.celsius is Some ==> spec_temp_token(t.min)
            == t.min->Some_0.celsius->Some_0,
        !(t.min is Some && t.min->Some_0.celsius is Some) ==> spec_temp_token(t.min) == "-"@
            && spec_temp_token(t.min).len() == 1,
        t.max is Some && t.max->Some_0.celsius is Some ==> spec_temp_token(t.max)
            == t.max->Some_0.celsius->Some_0,
        !(t.max is Some && t.max->Some_0.celsius is Some) ==> spec_temp_token(t.max) == "-"@
            && spec_temp_token(t.max).len() == 1,
{
    reveal_strlit("-");
}

/// A reported rain window's line stands at its index among the chance-of-rain
/// lines: after one line for each reported window before it.
pub proof fn lemma_rain_line_position(c: RainChanceView, k: int)
    requires
        0 <= k < 4,
        spec_rain_window_value(c, k) is Some,
    ensures
        0 <= spec_rain_index(c, k) < spec_rain_lines(c).len(),
        spec_rain_lines(c)[spec_rain_index(c, k)] == spec_rain_line(
            k,
            spec_rain_window_value(c, k)->Some_0,
        ),
{
    lemma_rain_lines_count(c);
}

/// Whenever two rain windows are both reported, their lines appear in the
/// fixed window order 00-06, 06-12, 12-18, 18-24: the earlier window's line
/// stands strictly before the later window's line.
pub proof fn lemma_rain_lines_in_window_order(c: RainChanceView, k1: int, k2: int)
    requires
        0 <= k1 < k2 < 4,
        spec_rain_window_value(c, k1) is Some,
        spec_rain_window_value(c, k2) is Some,
    ensures
        spec_rain_index(c, k1) < spec_rain_index(c, k2),
        spec_rain_lines(c)[spec_rain_index(c, k1)] == spec_rain_line(
            k1,
            spec_rain_window_value(c, k1)->Some_0,
        ),
        spec_rain_lines(c)[spec_rain_index(c, k2)] == spec_rain_line(
            k2,
            spec_rain_window_value(c, k2)->Some_0,
        ),
{
    lemma_rain_line_position(c, k1);
    lemma_rain_line_position(c, k2);
}

fn labeled_line(label: &str, value: &str) -> (r: String)
    ensures
        r@ == label@ + value@,
{
    let mut r = label.to_owned();
    r.append(value);
    r
}

/// The display token for one side of the temperature range: the provider's
/// Celsius string where present, the placeholder `-` otherwise.
pub fn celsius_token(side: &Option<CelsiusValue>) -> (r: &str)
    ensures
        r@ == spec_temp_token(side.deep_view()),
{
    match side {
        Some(cv) => match &cv.celsius {
            Some(s) => s.as_str(),
            None => "-",
        },
        None => "-",
    }
}

/// Renders the temperature line; an absent minimum or maximum appears as the
/// placeholder `-`.
pub fn temperature_line(t: &TemperatureRange) -> (r: String)
    ensures
        r@ == spec_temperature_line(t@),
{
    let mut r = "  🌡️ 気温: 最低".to_owned();
    r.append(celsius_token(&t.min));
    r.append("℃ / 最高");
    r.append(celsius_token(&t.max));
    r.append("℃");
    assert(r@ =~= spec_temperature_line(t@));
    r
}

/// Renders the chance-of-rain lines, one per reported window, in the fixed
/// window order.
pub fn rain_section_lines(c: &RainChance) -> (r: Vec<String>)
    ensures
        r.deep_view() == spec_rain_lines(c@),
{
    let mut r: Vec<String> = Vec::new();
    if let Some(v) = &c.t00_06 {
        r.push(labeled_line("     00-06時: ", v.as_str()));
    }
    if let Some(v) = &c.t06_12 {
        r.push(labeled_line("     06-12時: ", v.as_str()));
    }
    if let Some(v) = &c.t12_18 {
        r.push(labeled_line("     12-18時: ", v.as_str()));
    }
    if let Some(v) = &c.t18_24 {
        r.push(labeled_line("     18-24時: ", v.as_str()));
    }
    assert(r.deep_view() =~~= spec_rain_lines(c@));
    r
}

fn location_line(l: &Location) -> (r: String)
    ensures
        r@ == spec_location_line(l@),
{
    let mut r = "📍 地域: ".to_owned();
    r.append(l.prefecture.as_str());
    r.append(" - ");
    r.append(l.city.as_str());
    assert(r@ =~= spec_location_line(l@));
    r
}

/// Renders a whole report as display lines, or signals that there is no
/// forecast day to display. Formatting never fails on a report with at least
/// one forecast day, and a line is emitted for an optional field exactly
/// where that field is present.
#[verifier::rlimit(60)]
pub fn format_report(report: &WeatherReport) -> (r: Result<Vec<String>, EmptyForecastError>)
    ensures
        r is Ok <==> report@.forecasts.len() > 0,
        r matches Ok(lines) ==> lines.deep_view() == spec_report_lines(report@),
{
    if report.forecasts.len() == 0 {
        return Err(EmptyForecastError);
    }
    let day = &report.forecasts[0];
    let mut lines: Vec<String> = Vec::new();
    lines.push("===========================================".to_owned());
    lines.push(location_line(&report.location));
    lines.push(labeled_line("🕐 発表時刻: ", format_datetime(report.public_time.as_str()).as_str()));
    lines.push("===========================================".to_owned());
    let mut header = "【".to_owned();
    header.append(day.date_label.as_str());
    header.append("（");
    header.append(day.date.as_str());
    header.append("）】");
    assert(header@ =~= spec_header_line(day@));
    lines.push(header);
    lines.push(labeled_line("  ☀️ 天気: ", day.telop.as_str()));
    if let Some(w) = &day.detail.weather {
        lines.push(labeled_line("  📝 詳細: ", w.as_str()));
    }
    lines.push(temperature_line(&day.temperature));
    lines.push("  ☔ 降水確率:".to_owned());
    let mut rain = rain_section_lines(&day.chance_of_rain);
    lines.append(&mut rain);
    if let Some(w) = &day.detail.wind {
        lines.push(labeled_line("  💨 風: ", w.as_str()));
    }
    if let Some(w) = &day.detail.wave {
        lines.push(labeled_line("  🌊 波: ", w.as_str()));
    }
    lines.push("===========================================".to_owned());
    assert(lines.deep_view() =~~= spec_report_lines(report@));
    Ok(lines)
}

} // verus!
