//! Data model for a decoded weather-forecast payload.
//!
//! Every optional field's absence is a valid, expected state: the provider
//! frequently omits detail text, temperatures and rain-chance windows,
//! especially for days further ahead. The formatter never fails on a missing
//! optional field.

use vstd::prelude::*;

verus! {

/// A temperature reading, kept as the provider's string (the provider
/// sometimes sends sentinel text such as "-", so no numeric parsing is done).
pub struct CelsiusValue {
    pub celsius: Option<String>,
}

/// The minimum and maximum temperature of one forecast day; either or both
/// may be absent.
pub struct TemperatureRange {
    pub min: Option<CelsiusValue>,
    pub max: Option<CelsiusValue>,
}

/// Free-text detail of one forecast day; each field may be absent.
pub struct Detail {
    pub weather: Option<String>,
    pub wind: Option<String>,
    pub wave: Option<String>,
}

/// Chance-of-rain percentages keyed by the four fixed six-hour windows of a
/// day. A window already past (or not reported) is absent.
pub struct RainChance {
    pub t00_06: Option<String>,
    pub t06_12: Option<String>,
    pub t12_18: Option<String>,
    pub t18_24: Option<String>,
}

/// One calendar day's forecast.
pub struct ForecastDay {
    pub date: String,
    pub date_label: String,
    pub telop: String,
    pub detail: Detail,
    pub temperature: TemperatureRange,
    pub chance_of_rain: RainChance,
}

/// The place the report is about.
pub struct Location {
    pub city: String,
    pub prefecture: String,
}

/// The whole decoded payload: announcement time, forecast days in order, and
/// the location.
pub struct WeatherReport {
    pub public_time: String,
    pub forecasts: Vec<ForecastDay>,
    pub location: Location,
}

/// Mathematical model of a [`CelsiusValue`].
pub struct CelsiusValueView {
    pub celsius: Option<Seq<char>>,
}

/// Mathematical model of a [`TemperatureRange`].
pub struct TemperatureRangeView {
    pub min: Option<CelsiusValueView>,
    pub max: Option<CelsiusValueView>,
}

/// Mathematical model of a [`Detail`].
pub struct DetailView {
    pub weather: Option<Seq<char>>,
    pub wind: Option<Seq<char>>,
    pub wave: Option<Seq<char>>,
}

/// Mathematical model of a [`RainChance`].
pub struct RainChanceView {
    pub t00_06: Option<Seq<char>>,
    pub t06_12: Option<Seq<char>>,
    pub t12_18: Option<Seq<char>>,
    pub t18_24: Option<Seq<char>>,
}

/// Mathematical model of a [`ForecastDay`].
pub struct ForecastDayView {
    pub date: Seq<char>,
    pub date_label: Seq<char>,
    pub telop: Seq<char>,
    pub detail: DetailView,
    pub temperature: TemperatureRangeView,
    pub chance_of_rain: RainChanceView,
}

/// Mathematical model of a [`Location`].
pub struct LocationView {
    pub city: Seq<char>,
    pub prefecture: Seq<char>,
}

/// Mathematical model of a [`WeatherReport`].
pub struct WeatherReportView {
    pub public_time: Seq<char>,
    pub forecasts: Seq<ForecastDayView>,
    pub location: LocationView,
}

impl View for CelsiusValue {
    type V = CelsiusValueView;

    open spec fn view(&self) -> CelsiusValueView {
        CelsiusValueView { celsius: self.celsius.deep_view() }
    }
}

impl DeepView for CelsiusValue {
    type V = CelsiusValueView;

    open spec fn deep_view(&self) -> CelsiusValueView {
        self.view()
    }
}

impl View for TemperatureRange {
    type V = TemperatureRangeView;

    open spec fn view(&self) -> TemperatureRangeView {
        TemperatureRangeView {
            min: match self.min {
                Some(v) => Some(v@),
                None => None,
            },
            max: match self.max {
                Some(v) => Some(v@),
                None => None,
            },
        }
    }
}

impl View for Detail {
    type V = DetailView;

    open spec fn view(&self) -> DetailView {
        DetailView {
            weather: self.weather.deep_view(),
            wind: self.wind.deep_view(),
            wave: self.wave.deep_view(),
        }
    }
}

impl View for RainChance {
    type V = RainChanceView;

    open spec fn view(&self) -> RainChanceView {
        RainChanceView {
            t00_06: self.t00_06.deep_view(),
            t06_12: self.t06_12.deep_view(),
            t12_18: self.t12_18.deep_view(),
            t18_24: self.t18_24.deep_view(),
        }
    }
}

impl View for ForecastDay {
    type V = ForecastDayView;

    open spec fn view(&self) -> ForecastDayView {
        ForecastDayView {
            date: self.date@,
            date_label: self.date_label@,
            telop: self.telop@,
            detail: self.detail@,
            temperature: self.temperature@,
            chance_of_rain: self.chance_of_rain@,
        }
    }
}

impl View for Location {
    type V = LocationView;

    open spec fn view(&self) -> LocationView {
        LocationView { city: self.city@, prefecture: self.prefecture@ }
    }
}

impl DeepView for ForecastDay {
    type V = ForecastDayView;

    open spec fn deep_view(&self) -> ForecastDayView {
        self.view()
    }
}

impl View for WeatherReport {
    type V = WeatherReportView;

    open spec fn view(&self) -> WeatherReportView {
        WeatherReportView {
            public_time: self.public_time@,
            forecasts: self.forecasts.deep_view(),
            location: self.location@,
        }
    }
}

/// The report cannot be formatted because `forecasts` is empty: there is no
/// nearest forecast day to display.
#[derive(Clone, Copy, Debug, PartialEq, Eq, Structural)]
pub struct EmptyForecastError;

} // verus!
