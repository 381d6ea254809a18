//! Weather observations, condition codes and request URLs.

use crate::geo::{coordinate_text, degrees_text, Location};
use crate::time::{day_part_of, local_time, local_time_spec, DayPart, LocalTime};
use crate::units::{units_text, Units};
use vstd::prelude::*;

verus! {

/// The base URL of the five-day forecast service.
pub const FORECAST_URL: &'static str = "https://api.openweathermap.org/data/2.5/forecast?";

/// The base URL of the current-weather service.
pub const API_URL: &'static str = "https://api.openweathermap.org/data/2.5/weather?";

/// The query text that `format_url` appends for `items`: `key=value&` for each pair.
pub open spec fn query_pairs(items: Seq<(Seq<char>, Seq<char>)>) -> Seq<char>
    decreases items.len(),
{
    if items.len() == 0 {
        Seq::empty()
    } else {
        let last = items.last();
        query_pairs(items.drop_last()) + last.0 + seq!['='] + last.1 + seq!['&']
    }
}

/// The views of a list of string pairs.
pub open spec fn pairs_view(items: Seq<(&str, &str)>) -> Seq<(Seq<char>, Seq<char>)> {
    items.map_values(|p: (&str, &str)| (p.0@, p.1@))
}

/// The text of a request URL: the base, each pair as `key=value&`, and the
/// final character (the trailing `&` when there are pairs) taken off.
pub open spec fn url_text(url: Seq<char>, items: Seq<(Seq<char>, Seq<char>)>) -> Seq<char> {
    let full = url + query_pairs(items);
    if full.len() == 0 {
        full
    } else {
        full.drop_last()
    }
}

/// Formats a GET request URL from a base and its query pairs.
///
/// For `url = "https://www.a.ru/b?"` and `[("a", "A"), ("b", "B")]` the
/// result is `https://www.a.ru/b?a=A&b=B`.
pub fn format_url(url: &str, items: Vec<(&str, &str)>) -> (r: String)
    ensures
        r@ == url_text(url@, pairs_view(items@)),
{
    let mut full = String::from_str(url);
    let mut i: usize = 0;
    while i < items.len()
        invariant
            i <= items@.len(),
            full@ == url@ + query_pairs(pairs_view(items@.subrange(0, i as int))),
        decreases items@.len() - i,
    {
        let (key, value) = items[i];
        let ghost before = full@;
        full.append(key);
        full.append("=");
        full.append(value);
        full.append("&");
        proof {
            reveal_strlit("=");
            reveal_strlit("&");
            let prefix = items@.subrange(0, i as int + 1);
            let pv = pairs_view(prefix);
            assert(prefix.drop_last() =~= items@.subrange(0, i as int));
            assert(pv.drop_last() =~= pairs_view(prefix.drop_last()));
            assert(pv.last() == (key@, value@));
            assert(full@ =~= before + key@ + seq!['='] + value@ + seq!['&']);
            assert(full@ =~= url@ + query_pairs(pv));
        }
        i = i + 1;
    }
    assert(items@.subrange(0, items@.len() as int) =~= items@);
    let n = full.as_str().unicode_len();
    if n == 0 {
        full
    } else {
        String::from_str(full.as_str().substring_char(0, n - 1))
    }
}

/// The text shown for a code that no table entry covers.
pub open spec fn unknown_description() -> Seq<char> {
    "погода неизвестна"@
}

/// The description of a weather condition code.
pub open spec fn description(code: u16) -> Seq<char> {
    match code {
        // Group 2xx: thunderstorm
        200 => "гроза с небольшим дождём"@,
        201 => "гроза с дождём"@,
        202 => "гроза с сильным дождём"@,
        210 => "небольшая гроза"@,
        211 => "гроза"@,
        212 => "сильная гроза"@,
        221 => "рваная гроза"@,
        230 => "гроза с лёгким моросящим дождём"@,
        231 => "гроза с моросящим дождём"@,
        232 => "гроза с сильным моросящим дождём"@,
        // Group 3xx: drizzle
        300 | 310 => "небольшой моросящий дождь"@,
        301 | 311 | 321 => "моросящий дождь"@,
        302 | 312 => "сильный моросящий дождь"@,
        313 => "дождь и морось"@,
        314 => "сильный моросящий ливень"@,
        // Group 5xx: rain
        500 => "дождь"@,
        501 => "умеренный дождь"@,
        502 => "сильный дождь"@,
        503 => "очень сильный дождь"@,
        504 | 522 => "сильный ливень"@,
        511 => "ледяной дождь"@,
        520 => "небольшой ливень"@,
        521 => "ливень"@,
        531 => "неровный дождь"@,
        // Group 6xx: snow
        600 => "небольшой снег"@,
        601 => "снег"@,
        602 => "сильный снег"@,
        611 => "дождь со снегом"@,
        612 => "лёгкий дождь со снегом"@,
        613 | 614 | 615 | 616 | 617 | 618 | 619 | 620 | 621 | 622 => "снег с дождём"@,
        // Group 7xx: atmosphere
        701 | 741 => "туман"@,
        711 => "дым"@,
        721 => "дымка"@,
        731 => "вихри песка/пыли"@,
        751 => "песок"@,
        761 => "пыль"@,
        762 => "вулканический пепел"@,
        771 => "шторм"@,
        781 => "торнадо"@,
        // Group 800: clear
        800 => "ясно"@,
        // Group 80x: clouds
        801 => "небольшая облачность"@,
        802 => "рассеянные облака"@,
        803 => "средняя облачность"@,
        804 => "пасмурно"@,
        _ => "погода неизвестна"@,
    }
}

/// The icon name of a condition code at a day-part. Thunderstorms, clear sky,
/// clouds and wind change with the day-part; rain, snow and fog do not.
pub open spec fn icon_name(code: u16, part: DayPart) -> Seq<char> {
    let night = part == DayPart::Night;
    if 200 <= code <= 232 {
        if night { "thunder_night"@ } else { "thunder_day"@ }
    } else if (300 <= code <= 314) || (501 <= code <= 531) {
        "rain"@
    } else if code == 500 {
        "rain-500"@
    } else if 600 <= code <= 623 {
        "snow"@
    } else if code == 701 || code == 741 || code == 711 || code == 721 {
        "fog"@
    } else if code == 731 || code == 771 {
        if night { "wind_night"@ } else { "wind_day"@ }
    } else if code == 800 {
        match part {
            DayPart::Day => "clear_day"@,
            DayPart::Evening => "clear_evening"@,
            DayPart::Night => "clear_night"@,
        }
    } else if 801 <= code <= 803 {
        if night { "cloud_night-801"@ } else { "cloud_day-801"@ }
    } else if code == 804 {
        if night { "cloud_night"@ } else { "cloud_day"@ }
    } else {
        "default"@
    }
}

/// The icon name used when no other fits.
pub open spec fn default_icon() -> Seq<char> {
    "default"@
}

/// The codes of the documented groups: thunderstorm 200-232, drizzle 300-321,
/// rain 500-531, snow 600-623, atmosphere 700-781, clear and clouds 800-804.
pub open spec fn documented(code: u16) -> bool {
    ||| 200 <= code <= 232
    ||| 300 <= code <= 321
    ||| 500 <= code <= 531
    ||| 600 <= code <= 623
    ||| 700 <= code <= 781
    ||| 800 <= code <= 804
}

/// A weather condition as the service reports it: its numeric code and group.
#[derive(Clone, Copy, Debug, PartialEq, Eq, Structural)]
pub struct WeatherMeta {
    pub id: u16,
    pub main: WeatherDescription,
}

impl WeatherMeta {
    /// The description of the condition code.
    pub fn get_descr(&self) -> (r: &'static str)
        ensures
            r@ == description(self.id),
    {
        match self.id {
            // Group 2xx: thunderstorm
            200 => "гроза с небольшим дождём",
            201 => "гроза с дождём",
            202 => "гроза с сильным дождём",
            210 => "небольшая гроза",
            211 => "гроза",
            212 => "сильная гроза",
            221 => "рваная гроза",
            230 => "гроза с лёгким моросящим дождём",
            231 => "гроза с моросящим дождём",
            232 => "гроза с сильным моросящим дождём",
            // Group 3xx: drizzle
            300 | 310 => "небольшой моросящий дождь",
            301 | 311 | 321 => "моросящий дождь",
            302 | 312 => "сильный моросящий дождь",
            313 => "дождь и морось",
            314 => "сильный моросящий ливень",
            // Group 5xx: rain
            500 => "дождь",
            501 => "умеренный дождь",
            502 => "сильный дождь",
            503 => "очень сильный дождь",
            504 | 522 => "сильный ливень",
            511 => "ледяной дождь",
            520 => "небольшой ливень",
            521 => "ливень",
            531 => "неровный дождь",
            // Group 6xx: snow
            600 => "небольшой снег",
            601 => "снег",
            602 => "сильный снег",
            611 => "дождь со снегом",
            612 => "лёгкий дождь со снегом",
            613 | 614 | 615 | 616 | 617 | 618 | 619 | 620 | 621 | 622 => "снег с дождём",
            // Group 7xx: atmosphere
            701 | 741 => "туман",
            711 => "дым",
            721 => "дымка",
            731 => "вихри песка/пыли",
            751 => "песок",
            761 => "пыль",
            762 => "вулканический пепел",
            771 => "шторм",
            781 => "торнадо",
            // Group 800: clear
            800 => "ясно",
            // Group 80x: clouds
            801 => "небольшая облачность",
            802 => "рассеянные облака",
            803 => "средняя облачность",
            804 => "пасмурно",
            _ => "погода неизвестна",
        }
    }

    /// The icon name of the condition at the local time `time`.
    pub fn get_icon(&self, time: &LocalTime) -> (r: &'static str)
        ensures
            r@ == icon_name(self.id, day_part_of(time.hour as int)),
    {
        let part = DayPart::classify(time.hour);
        let night = match part {
            DayPart::Night => true,
            _ => false,
        };
        let code = self.id;
        if 200 <= code && code <= 232 {
            if night { "thunder_night" } else { "thunder_day" }
        } else if (300 <= code && code <= 314) || (501 <= code && code <= 531) {
            "rain"
        } else if code == 500 {
            "rain-500"
        } else if 600 <= code && code <= 623 {
            "snow"
        } else if code == 701 || code == 741 || code == 711 || code == 721 {
            "fog"
        } else if code == 731 || code == 771 {
            if night { "wind_night" } else { "wind_day" }
        } else if code == 800 {
            match part {
                DayPart::Day => "clear_day",
                DayPart::Evening => "clear_evening",
                DayPart::Night => "clear_night",
            }
        } else if 801 <= code && code <= 803 {
            if night { "cloud_night-801" } else { "cloud_day-801" }
        } else if code == 804 {
            if night { "cloud_night" } else { "cloud_day" }
        } else {
            "default"
        }
    }
}

/// Within the thunderstorm block 200-232 every code has a non-empty
/// description, and the icon depends on the day-part alone.
pub proof fn thunderstorm_block(code: u16, other: u16, part: DayPart)
    requires
        200 <= code <= 232,
        200 <= other <= 232,
    ensures
        description(code).len() > 0,
        icon_name(code, part) == icon_name(other, part),
{
    reveal_strlit("гроза с небольшим дождём");
    reveal_strlit("гроза с дождём");
    reveal_strlit("гроза с сильным дождём");
    reveal_strlit("небольшая гроза");
    reveal_strlit("гроза");
    reveal_strlit("сильная гроза");
    reveal_strlit("рваная гроза");
    reveal_strlit("гроза с лёгким моросящим дождём");
    reveal_strlit("гроза с моросящим дождём");
    reveal_strlit("гроза с сильным моросящим дождём");
    reveal_strlit("погода неизвестна");
}

/// A code outside every documented group is described as unknown and shown
/// with the default icon, whatever the day-part.
pub proof fn undocumented_code(code: u16, part: DayPart)
    requires
        !documented(code),
    ensures
        description(code) == unknown_description(),
        icon_name(code, part) == default_icon(),
{
}

/// The broad group of a weather condition.
#[derive(Clone, Copy, Debug, PartialEq, Eq, Structural)]
pub enum WeatherDescription {
    Thunderstorm,
    Drizzle,
    Rain,
    Snow,
    Mist,
    Smoke,
    Haze,
    Dust,
    Fog,
    Sand,
    Ash,
    Squall,
    Tornado,
    Clear,
    Clouds,
}

/// Icon files for one group: the day icon, and the evening and night icons
/// where they differ from it.
#[derive(Clone, Copy, Debug, PartialEq, Eq)]
pub struct WeatherIcon<'a> {
    pub day: &'a str,
    pub evening: Option<&'a str>,
    pub night: Option<&'a str>,
}

/// The icon of a set for a local hour: the icon of the hour's day-part,
/// or the day icon where the set has none for that part.
pub open spec fn icon_for_hour(icon: WeatherIcon, hour: int) -> Seq<char> {
    match day_part_of(hour) {
        DayPart::Day => icon.day@,
        DayPart::Evening => match icon.evening {
            Some(e) => e@,
            None => icon.day@,
        },
        DayPart::Night => match icon.night {
            Some(n) => n@,
            None => icon.day@,
        },
    }
}

impl<'a> WeatherIcon<'a> {
    /// The icon file for the local time `dt`.
    pub fn get_icon_name(&self, dt: &LocalTime) -> (r: &'a str)
        ensures
            r@ == icon_for_hour(*self, dt.hour as int),
    {
        match DayPart::classify(dt.hour) {
            DayPart::Day => self.day,
            DayPart::Evening => match self.evening {
                Some(evening) => evening,
                None => self.day,
            },
            DayPart::Night => match self.night {
                Some(night) => night,
                None => self.day,
            },
        }
    }
}

impl<'a> Default for WeatherIcon<'a> {
    fn default() -> (r: WeatherIcon<'a>)
        ensures
            r.day@ == "default.png"@,
            r.evening matches Some(e) && e@ == "default.png"@,
            r.night matches Some(n) && n@ == "default.png"@,
    {
        WeatherIcon { day: "default.png", evening: Some("default.png"), night: Some("default.png") }
    }
}

/// The icon set of a group, if it has one of its own.
pub open spec fn group_icon(d: WeatherDescription) -> Option<(Seq<char>, Option<Seq<char>>, Option<Seq<char>>)> {
    match d {
        WeatherDescription::Rain => Some(("rain.png"@, None, None)),
        WeatherDescription::Clear => Some(("clear_day.png"@, Some("clear_evening.png"@), Some("clear_night.png"@))),
        WeatherDescription::Clouds => Some(("cloud_day.png"@, None, Some("cloud_night.png"@))),
        WeatherDescription::Fog => Some(("fog.png"@, None, None)),
        WeatherDescription::Snow => Some(("snow.png"@, None, None)),
        WeatherDescription::Thunderstorm => Some(("thunder_day.png"@, None, Some("thunder_night.png"@))),
        _ => None,
    }
}

/// The views of an icon set's three names.
pub open spec fn icon_view(icon: WeatherIcon) -> (Seq<char>, Option<Seq<char>>, Option<Seq<char>>) {
    (
        icon.day@,
        match icon.evening {
            Some(e) => Some(e@),
            None => None,
        },
        match icon.night {
            Some(n) => Some(n@),
            None => None,
        },
    )
}

impl WeatherDescription {
    /// The icon set of the group; `None` where the default icon is to be used.
    pub fn get_icon<'a>(&self) -> (r: Option<WeatherIcon<'a>>)
        ensures
            r matches Some(i) ==> group_icon(*self) == Some(icon_view(i)),
            r is None <==> group_icon(*self) is None,
    {
        match self {
            WeatherDescription::Rain => Some(WeatherIcon { day: "rain.png", evening: None, night: None }),
            WeatherDescription::Clear => Some(
                WeatherIcon {
                    day: "clear_day.png",
                    evening: Some("clear_evening.png"),
                    night: Some("clear_night.png"),
                },
            ),
            WeatherDescription::Clouds => Some(
                WeatherIcon { day: "cloud_day.png", evening: None, night: Some("cloud_night.png") },
            ),
            WeatherDescription::Fog => Some(WeatherIcon { day: "fog.png", evening: None, night: None }),
            WeatherDescription::Snow => Some(WeatherIcon { day: "snow.png", evening: None, night: None }),
            WeatherDescription::Thunderstorm => Some(
                WeatherIcon { day: "thunder_day.png", evening: None, night: Some("thunder_night.png") },
            ),
            _ => None,
        }
    }
}

/// Temperatures in hundredths of a degree and pressure in hectopascals.
#[derive(Clone, Copy, Debug, PartialEq, Eq, Structural)]
pub struct Main {
    pub feels_like: i32,
    pub pressure: i32,
    pub temp: i32,
    pub temp_max: i32,
    pub temp_min: i32,
}

/// Country and the day's sunrise and sunset, in seconds since the epoch.
#[derive(Clone, Debug)]
pub struct Sys {
    pub country: String,
    pub sunrise: i64,
    pub sunset: i64,
}

/// Cloudiness in percent.
#[derive(Clone, Copy, Debug, PartialEq, Eq, Structural)]
pub struct Clouds {
    pub all: u32,
}

/// Wind direction in degrees; speed and gusts in hundredths of the speed unit.
#[derive(Clone, Copy, Debug, PartialEq, Eq, Structural)]
pub struct Wind {
    pub deg: u16,
    pub gust: Option<i32>,
    pub speed: i32,
}

/// One observation of the current weather at a place. It is replaced whole
/// on each successful fetch and never changed field by field.
#[derive(Clone, Debug)]
pub struct Current {
    /// Name of the place.
    pub name: String,
    pub coord: Location,
    pub main: Main,
    pub sys: Sys,
    /// Time of the observation, in seconds since the epoch.
    pub dt: i64,
    /// Offset of the place's time zone east of UTC, in seconds.
    pub timezone: i32,
    /// The reported condition.
    pub weather: WeatherMeta,
    pub wind: Wind,
}

impl Current {
    /// The local time of the observation at the place.
    pub fn get_time(&self) -> (r: Option<LocalTime>)
        ensures
            r == local_time_spec(self.dt as int, self.timezone as int),
    {
        local_time(self.dt, self.timezone)
    }
}

/// One step of a forecast.
#[derive(Clone, Debug)]
pub struct WeatherData {
    /// Time of the step, in seconds since the epoch.
    pub dt: i64,
    pub main: Main,
    pub weather: Vec<WeatherMeta>,
    pub wind: Wind,
}

/// The place a forecast is for.
#[derive(Clone, Debug)]
pub struct City {
    pub id: u64,
    pub name: String,
    pub coord: Location,
    pub country: String,
    /// Offset of the place's time zone east of UTC, in seconds.
    pub timezone: i32,
    pub sunrise: i64,
    pub sunset: i64,
}

/// A five-day forecast in three-hour steps.
#[derive(Clone, Debug)]
pub struct Daily {
    pub cnt: usize,
    pub list: Vec<WeatherData>,
    pub city: City,
}

impl Daily {
    /// The URL of a forecast request.
    pub fn request_url(appid: &str, loc: Location, units: Units) -> (r: String)
        ensures
            r@ == url_text(FORECAST_URL@, weather_query(appid@, units, loc)),
    {
        let lat = degrees_text(loc.lat);
        let lon = degrees_text(loc.lon);
        let items = vec![("appid", appid), ("units", units.as_str()), ("lat", lat.as_str()), ("lon", lon.as_str())];
        let r = format_url(FORECAST_URL, items);
        assert(pairs_view(items@) =~= weather_query(appid@, units, loc));
        r
    }

    /// The local time at the place of forecast step `idx`.
    pub fn get_time(&self, idx: usize) -> (r: Option<LocalTime>)
        requires
            idx < self.list@.len(),
        ensures
            r == local_time_spec(self.list@[idx as int].dt as int, self.city.timezone as int),
    {
        local_time(self.list[idx].dt, self.city.timezone)
    }
}

/// The query pairs of a current-weather request.
pub open spec fn weather_query(appid: Seq<char>, units: Units, loc: Location) -> Seq<(Seq<char>, Seq<char>)> {
    seq![
        ("appid"@, appid),
        ("units"@, units_text(units)),
        ("lat"@, coordinate_text(loc.lat as int)),
        ("lon"@, coordinate_text(loc.lon as int)),
    ]
}

/// A current-weather request: where, in which units, with which key.
#[derive(Clone, Debug)]
pub struct Weather {
    pub location: Location,
    pub units: Units,
    pub api_key: String,
}

impl Weather {
    /// A request in the default (metric) units.
    pub fn new(loc: Location, key: &str) -> (r: Weather)
        ensures
            r.location == loc,
            r.api_key@ == key@,
            r.units == Units::Metric,
    {
        Weather { location: loc, units: Units::Metric, api_key: String::from_str(key) }
    }

    pub fn set_units(self, units: Units) -> (r: Weather)
        ensures
            r.location == self.location,
            r.api_key@ == self.api_key@,
            r.units == units,
    {
        Weather { location: self.location, units, api_key: self.api_key }
    }

    /// The URL of the request.
    pub fn request_url(&self) -> (r: String)
        ensures
            r@ == url_text(API_URL@, weather_query(self.api_key@, self.units, self.location)),
    {
        let lat = degrees_text(self.location.lat);
        let lon = degrees_text(self.location.lon);
        let items = vec![
            ("appid", self.api_key.as_str()),
            ("units", self.units.as_str()),
            ("lat", lat.as_str()),
            ("lon", lon.as_str()),
        ];
        let r = format_url(API_URL, items);
        assert(pairs_view(items@) =~= weather_query(self.api_key@, self.units, self.location));
        r
    }
}

} // verus!
