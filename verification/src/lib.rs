//! A verified weather-report formatter.
//!
//! The library models a decoded weather-forecast payload and renders it as a
//! sequence of display lines: a location header, an announcement timestamp
//! converted to Tokyo local time, and the nearest forecast day with its
//! optional detail, temperature and chance-of-rain fields.

mod model;
mod report;
mod text;
mod timestamp;

pub use report::celsius_token;
pub use report::format_report;
pub use report::lemma_rain_line_position;
pub use report::lemma_rain_lines_count;
pub use report::lemma_rain_lines_in_window_order;
pub use report::lemma_report_lines_count;
pub use report::lemma_temperature_line_two_tokens;
pub use report::spec_optional_present_count;
pub use report::rain_section_lines;
pub use report::spec_day_lines;
pub use report::spec_header_line;
pub use report::spec_location_line;
pub use report::spec_opt_rain_lines;
pub use report::spec_present;
pub use report::spec_rain_header_line;
pub use report::spec_rain_index;
pub use report::spec_rain_line;
pub use report::spec_rain_lines;
pub use report::spec_rain_present_count;
pub use report::spec_rain_window_label;
pub use report::spec_rain_window_value;
pub use report::spec_report_lines;
pub use report::spec_separator_line;
pub use report::spec_telop_line;
pub use report::spec_temp_token;
pub use report::spec_temperature_line;
pub use report::spec_time_line;
pub use report::spec_wave_line;
pub use report::spec_weather_line;
pub use report::spec_wind_line;
pub use report::temperature_line;

pub use model::CelsiusValue;
pub use model::CelsiusValueView;
pub use model::Detail;
pub use model::DetailView;
pub use model::EmptyForecastError;
pub use model::ForecastDay;
pub use model::ForecastDayView;
pub use model::Location;
pub use model::LocationView;
pub use model::RainChance;
pub use model::RainChanceView;
pub use model::TemperatureRange;
pub use model::TemperatureRangeView;
pub use model::WeatherReport;
pub use model::WeatherReportView;
pub use text::decimal_padded;
pub use text::spec_decimal_padded;
pub use text::spec_digit_char;
pub use timestamp::format_datetime;
pub use timestamp::lemma_format_datetime_deterministic;
pub use timestamp::render_tokyo_time;
pub use timestamp::spec_format_datetime;
pub use timestamp::spec_render_tokyo;
pub use timestamp::spec_year_digits;
pub use timestamp::tokyo_civil_time;
pub use timestamp::TokyoTime;
