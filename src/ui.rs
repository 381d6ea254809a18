//! The application state machine: what each event does to the state, which
//! fetch it starts, which timers run, and what the screen shows.

use crate::config::Config;
use crate::geo::{
    dedup_candidates, dedup_places, name_text, opt_view, parse_location, Location, LocationInfo,
    LocationName, NameView, LIMIT,
};
use crate::text::{signed_decimal, signed_decimal_text};
use crate::time::{clock_text, local_time, local_time_spec, DisplayMode, LocalTime, Time, MAX_TIMESTAMP};
use crate::units::{unit_label, Units, Variant};
use crate::weather::{default_icon, description, icon_name, url_text, weather_query, Current, Weather};
use vstd::prelude::*;

verus! {

/// The address of the network-location service.
pub const IP_API_URL: &'static str = "http://ip-api.com/json/?fields=country,city,regionName,lat,lon";

/// Why a fetch gave no result.
#[derive(Clone, Debug)]
pub enum FetchError {
    /// The service could not be reached; the transport's own words.
    Network(String),
    /// The reply could not be read; the decoder's own words.
    Decode(String),
    /// A typed location query is malformed.
    Parse,
    /// Weather was asked for before any location was known.
    UnresolvedLocation,
}

/// The text shown when a service cannot be reached.
pub open spec fn network_text(detail: Seq<char>) -> Seq<char> {
    "Ошибка получения данных с сервера. Проверьте подключение к сети и корректность запроса ("@
        + detail + ")"@
}

/// The text shown when a reply cannot be read.
pub open spec fn decode_text(detail: Seq<char>) -> Seq<char> {
    "Ошибка получения JSON с сервера ("@ + detail + ")"@
}

/// The detail recorded for coordinates outside the valid ranges.
pub open spec fn out_of_range_detail() -> Seq<char> {
    "координаты вне допустимого диапазона"@
}

/// The text shown for a failed fetch.
pub open spec fn error_text(e: FetchError) -> Seq<char> {
    match e {
        FetchError::Network(t) => network_text(t@),
        FetchError::Decode(t) => decode_text(t@),
        FetchError::Parse => "Некорректное местоположение"@,
        FetchError::UnresolvedLocation => "Неизвестное местоположение"@,
    }
}

impl FetchError {
    pub fn message(&self) -> (r: String)
        ensures
            r@ == error_text(*self),
    {
        match self {
            FetchError::Network(t) => {
                let mut r = String::from_str(
                    "Ошибка получения данных с сервера. Проверьте подключение к сети и корректность запроса (",
                );
                r.append(t.as_str());
                r.append(")");
                r
            },
            FetchError::Decode(t) => {
                let mut r = String::from_str("Ошибка получения JSON с сервера (");
                r.append(t.as_str());
                r.append(")");
                r
            },
            FetchError::Parse => String::from_str("Некорректное местоположение"),
            FetchError::UnresolvedLocation => String::from_str("Неизвестное местоположение"),
        }
    }
}

/// What a location search looks for: the configured default city for an
/// empty query, otherwise the parsed query.
pub open spec fn search_name(query: Seq<char>, default_city: Seq<char>) -> Option<NameView> {
    if query.len() == 0 {
        Some((default_city, None, None))
    } else {
        parse_location(query)
    }
}

/// Turns the text typed into the search box into a location query.
pub fn search_query(query: &str, default_city: &str) -> (r: Result<LocationName, FetchError>)
    ensures
        r matches Ok(n) ==> search_name(query@, default_city@) == Some(n@),
        r matches Err(e) ==> search_name(query@, default_city@) is None && e is Parse,
        r is Ok <==> search_name(query@, default_city@) is Some,
{
    if query.unicode_len() == 0 {
        Ok(LocationName::new(default_city))
    } else {
        match LocationName::from_str(query) {
            Some(n) => Ok(n),
            None => Err(FetchError::Parse),
        }
    }
}

/// An event handled by the state machine: a timer tick, a finished fetch or
/// a user action.
#[derive(Debug)]
pub enum Message {
    AutoDetectLocation,
    LocationReceived(Result<Location, FetchError>),
    GetCurrentWeather,
    CurrentWeatherReceived(Result<Current, FetchError>),
    SearchLocation(String),
    CandidatesReceived(Result<Vec<LocationInfo>, FetchError>),
    SelectCandidate(usize),
    /// The current time in seconds since the epoch, and the offset of the
    /// kiosk's own time zone east of UTC.
    UpdateCTime(i64, i32),
    UpdateUptime,
    RefreshButtonPressed,
}

/// Work the caller is to start after an event; its result comes back as a
/// later message.
#[derive(Clone, Debug)]
pub enum Action {
    Nothing,
    /// Ask `IP_API_URL` for the location; answer with `LocationReceived`.
    FetchLocation,
    /// Fetch this URL; answer with `CurrentWeatherReceived`.
    FetchWeather(String),
    /// Fetch this URL; answer with `CandidatesReceived`.
    SearchLocations(String),
}

/// Interval of the clock tick, in milliseconds.
pub const CLOCK_TICK_MS: u64 = 500;

/// Interval of the uptime tick, in milliseconds.
pub const UPTIME_TICK_MS: u64 = 1000;

/// Interval of location retries while no location is known, in milliseconds.
pub const LOCATION_RETRY_MS: u64 = 500;

/// Interval of weather retries until the first weather arrives, in milliseconds.
pub const WEATHER_RETRY_MS: u64 = 1000;

/// Interval of weather refreshes once weather is shown, in milliseconds.
pub const WEATHER_REFRESH_MS: u64 = 600000;

/// What a timer asks for when it fires.
#[derive(Clone, Copy, Debug, PartialEq, Eq, Hash, Structural)]
pub enum Tick {
    UpdateCTime,
    UpdateUptime,
    AutoDetectLocation,
    GetCurrentWeather,
}

/// A periodic timer.
#[derive(Clone, Copy, Debug, PartialEq, Eq, Structural)]
pub struct Timer {
    pub every_ms: u64,
    pub tick: Tick,
}

/// The light and dark colour schemes.
#[derive(Clone, Copy, Debug, PartialEq, Eq, Structural)]
pub enum Theme {
    GruvboxLight,
    GruvboxDark,
}

/// What the screen shows, all of it as text.
#[derive(Clone, Debug)]
pub struct Presentation {
    pub description: String,
    pub icon: String,
    pub temperature: String,
    pub place: String,
    pub clock: String,
    pub uptime: String,
    pub error: Option<String>,
}

/// The phases of refreshing: quick retries until the first weather arrives,
/// then slow periodic refreshes.
#[derive(Clone, Copy, Debug, PartialEq, Eq, Structural)]
pub enum Phase {
    Bootstrapping,
    SteadyState,
}

/// The state in view.
pub struct IceView {
    pub units: Units,
    pub appid: Seq<char>,
    pub autodetect: bool,
    pub default_city: Seq<char>,
    pub location: Option<Location>,
    pub weather: Option<Current>,
    pub last_error: Option<Seq<char>>,
    pub candidates: Seq<LocationInfo>,
    pub selected: Option<LocationInfo>,
    pub uptime: u64,
    pub now: i64,
    pub local_offset: i32,
}

/// The state of the kiosk, changed only by `update`.
#[derive(Clone, Debug)]
pub struct Ice {
    conf: Config,
    error_text: Option<String>,
    current_weather: Option<Current>,
    location: Option<Location>,
    geocoding: Vec<LocationInfo>,
    selected_location: Option<LocationInfo>,
    uptime: u64,
    ctime: i64,
    local_offset: i32,
}

impl View for Ice {
    type V = IceView;

    closed spec fn view(&self) -> IceView {
        IceView {
            units: self.conf.units,
            appid: self.conf.appid@,
            autodetect: self.conf.autodetect_location,
            default_city: self.conf.default_city@,
            location: self.location,
            weather: self.current_weather,
            last_error: opt_view(self.error_text),
            candidates: self.geocoding@,
            selected: self.selected_location,
            uptime: self.uptime,
            now: self.ctime,
            local_offset: self.local_offset,
        }
    }
}

/// The phase of a state: steady once it holds weather.
pub open spec fn phase_of(v: IceView) -> Phase {
    if v.weather is Some {
        Phase::SteadyState
    } else {
        Phase::Bootstrapping
    }
}

/// The timers that run in a state: the clock and uptime always, location
/// retries while no location is known and detection is on, and weather
/// fetches, quick before the first weather arrives and slow after.
pub open spec fn timers(v: IceView) -> Seq<Timer> {
    let base = seq![
        Timer { every_ms: CLOCK_TICK_MS, tick: Tick::UpdateCTime },
        Timer { every_ms: UPTIME_TICK_MS, tick: Tick::UpdateUptime },
    ];
    let location = if v.location is None && v.autodetect {
        seq![Timer { every_ms: LOCATION_RETRY_MS, tick: Tick::AutoDetectLocation }]
    } else {
        Seq::empty()
    };
    let weather = match phase_of(v) {
        Phase::Bootstrapping => Timer { every_ms: WEATHER_RETRY_MS, tick: Tick::GetCurrentWeather },
        Phase::SteadyState => Timer { every_ms: WEATHER_REFRESH_MS, tick: Tick::GetCurrentWeather },
    };
    base + location + seq![weather]
}

/// Light from 06:00 to 21:59 kiosk time, dark otherwise; light while the
/// time is unknown.
pub open spec fn theme_of(v: IceView) -> Theme {
    match local_time_spec(v.now as int, v.local_offset as int) {
        Some(t) => if 6 <= t.hour < 22 {
            Theme::GruvboxLight
        } else {
            Theme::GruvboxDark
        },
        None => Theme::GruvboxLight,
    }
}

/// The description shown.
pub open spec fn shown_description(v: IceView) -> Seq<char> {
    match v.weather {
        Some(c) => description(c.weather.id),
        None => "Загружаем инф-цию..."@,
    }
}

/// The icon shown: that of the condition at the local time of the
/// observation (its timestamp in the place's zone), the default one while
/// there is no weather or that time is unknown.
pub open spec fn shown_icon(v: IceView) -> Seq<char> {
    match v.weather {
        Some(c) => match local_time_spec(c.dt as int, c.timezone as int) {
            Some(t) => icon_name(c.weather.id, crate::time::day_part_of(t.hour as int)),
            None => default_icon(),
        },
        None => default_icon(),
    }
}

/// The felt temperature rounded down to whole degrees, with its unit;
/// zero while there is no weather.
pub open spec fn shown_temperature(v: IceView) -> Seq<char> {
    let hundredths = match v.weather {
        Some(c) => c.main.feels_like as int,
        None => 0,
    };
    signed_decimal(hundredths / 100) + unit_label(Variant::Degrees, v.units)
}

/// The place shown: `name (country)`.
pub open spec fn shown_place(v: IceView) -> Seq<char> {
    match v.weather {
        Some(c) => c.name@ + " ("@ + c.sys.country@ + ")"@,
        None => "Загружаем информацию..."@,
    }
}

/// A time in a display mode, or nothing where the time is unknown.
pub open spec fn clock_or_empty(t: Option<LocalTime>, mode: DisplayMode) -> Seq<char> {
    match t {
        Some(t) => clock_text(t, mode),
        None => Seq::empty(),
    }
}

/// The kiosk's clock: date and time in its own zone.
pub open spec fn shown_clock(v: IceView) -> Seq<char> {
    clock_or_empty(local_time_spec(v.now as int, v.local_offset as int), DisplayMode::TimeDate)
}

/// The time the kiosk has been running, as hours, minutes and seconds.
pub open spec fn shown_uptime(v: IceView) -> Seq<char> {
    "Время работы: "@ + clock_or_empty(
        if v.uptime <= MAX_TIMESTAMP {
            local_time_spec(v.uptime as int, 0)
        } else {
            None
        },
        DisplayMode::TimeWithSeconds,
    )
}

/// The state with `e` recorded as the latest error.
pub open spec fn with_error(v: IceView, e: Seq<char>) -> IceView {
    IceView { last_error: Some(e), ..v }
}

/// The coordinates of a candidate.
pub open spec fn candidate_location(c: LocationInfo) -> Location {
    Location { lat: c.lat, lon: c.lon }
}

/// The state after an event. A successful fetch installs its result and
/// clears the error; a failed one records its error and keeps the data.
/// Coordinates outside the valid ranges are never installed: they are
/// recorded as a decoding error.
pub open spec fn next_state(v: IceView, m: Message) -> IceView {
    match m {
        Message::AutoDetectLocation => v,
        Message::LocationReceived(Ok(l)) => {
            if l.wf() {
                IceView { location: Some(l), last_error: None, ..v }
            } else {
                with_error(v, decode_text(out_of_range_detail()))
            }
        },
        Message::LocationReceived(Err(e)) => with_error(v, error_text(e)),
        Message::GetCurrentWeather | Message::RefreshButtonPressed => {
            if v.location is Some {
                v
            } else {
                with_error(v, error_text(FetchError::UnresolvedLocation))
            }
        },
        Message::CurrentWeatherReceived(Ok(c)) => IceView { weather: Some(c), last_error: None, ..v },
        Message::CurrentWeatherReceived(Err(e)) => with_error(v, error_text(e)),
        Message::SearchLocation(q) => {
            if search_name(q@, v.default_city) is Some {
                v
            } else {
                with_error(v, error_text(FetchError::Parse))
            }
        },
        Message::CandidatesReceived(Ok(list)) => IceView {
            candidates: dedup_places(list@),
            last_error: None,
            ..v
        },
        Message::CandidatesReceived(Err(e)) => with_error(v, error_text(e)),
        Message::SelectCandidate(i) => {
            if i < v.candidates.len() && !candidate_location(v.candidates[i as int]).wf() {
                with_error(v, decode_text(out_of_range_detail()))
            } else if i < v.candidates.len() {
                IceView {
                    location: Some(candidate_location(v.candidates[i as int])),
                    selected: Some(v.candidates[i as int]),
                    candidates: Seq::empty(),
                    ..v
                }
            } else {
                v
            }
        },
        Message::UpdateCTime(now, offset) => IceView { now, local_offset: offset, ..v },
        Message::UpdateUptime => IceView {
            uptime: if v.uptime < u64::MAX {
                (v.uptime + 1) as u64
            } else {
                v.uptime
            },
            ..v
        },
    }
}

/// The weather request for a location in a state.
pub open spec fn weather_request(v: IceView, l: Location) -> Seq<char> {
    url_text(crate::weather::API_URL@, weather_query(v.appid, v.units, l))
}

/// The geocoding request for a query in a state.
pub open spec fn search_request(v: IceView, n: NameView) -> Seq<char> {
    url_text(crate::geo::API_URL@, seq![("q"@, name_text(n)), ("limit"@, LIMIT@), ("appid"@, v.appid)])
}

/// The work an event starts. Weather is fetched only for a known location,
/// and the network location only while none is known.
pub open spec fn planned_action(v: IceView, m: Message, a: Action) -> bool {
    match m {
        Message::AutoDetectLocation => {
            if v.location is None && v.autodetect {
                a is FetchLocation
            } else {
                a is Nothing
            }
        },
        Message::GetCurrentWeather | Message::RefreshButtonPressed => match v.location {
            Some(l) => a matches Action::FetchWeather(u) && u@ == weather_request(v, l),
            None => a is Nothing,
        },
        Message::SearchLocation(q) => match search_name(q@, v.default_city) {
            Some(n) => a matches Action::SearchLocations(u) && u@ == search_request(v, n),
            None => a is Nothing,
        },
        Message::SelectCandidate(i) => {
            if i < v.candidates.len() && candidate_location(v.candidates[i as int]).wf() {
                a matches Action::FetchWeather(u) && u@ == weather_request(
                    v,
                    candidate_location(v.candidates[i as int]),
                )
            } else {
                a is Nothing
            }
        },
        _ => a is Nothing,
    }
}

/// The error recorded for coordinates outside the valid ranges.
fn out_of_range_error() -> (r: FetchError)
    ensures
        r matches FetchError::Decode(t) && t@ == out_of_range_detail(),
{
    FetchError::Decode(String::from_str("координаты вне допустимого диапазона"))
}

/// Hundredths rounded down to whole units.
fn floor_hundredths(v: i32) -> (r: i64)
    ensures
        r == v as int / 100,
{
    let w = v as i64;
    if w >= 0 {
        w / 100
    } else {
        -((-w + 99) / 100)
    }
}

impl Ice {
    /// The state at startup: no weather, no error, and the configured
    /// coordinates as location when detection is off and they are valid.
    pub fn new(conf: Config, now: i64, local_offset: i32) -> (r: Ice)
        ensures
            r@.units == conf.units,
            r@.appid == conf.appid@,
            r@.autodetect == conf.autodetect_location,
            r@.default_city == conf.default_city@,
            r@.location == (match conf.coords {
                Some(l) if !conf.autodetect_location && l.wf() => Some(l),
                _ => None,
            }),
            r@.weather is None,
            r@.last_error is None,
            r@.candidates.len() == 0,
            r@.selected is None,
            r@.uptime == 0,
            r@.now == now,
            r@.local_offset == local_offset,
    {
        let location = match conf.coords {
            Some(l) if !conf.autodetect_location && l.is_valid() => Some(l),
            _ => None,
        };
        Ice {
            conf,
            error_text: None,
            current_weather: None,
            location,
            geocoding: Vec::new(),
            selected_location: None,
            uptime: 0,
            ctime: now,
            local_offset,
        }
    }

    /// The weather shown, if any.
    pub fn weather(&self) -> (r: Option<&Current>)
        ensures
            r == match self@.weather {
                Some(c) => Some(&c),
                None => None::<&Current>,
            },
    {
        match &self.current_weather {
            Some(c) => Some(c),
            None => None,
        }
    }

    /// The latest error, if any.
    pub fn error_text(&self) -> (r: Option<String>)
        ensures
            opt_view(r) == self@.last_error,
    {
        match &self.error_text {
            Some(e) => Some(e.clone()),
            None => None,
        }
    }

    /// The known location, if any.
    pub fn location(&self) -> (r: Option<Location>)
        ensures
            r == self@.location,
    {
        self.location
    }

    /// The candidates of the latest search.
    pub fn candidates(&self) -> (r: &Vec<LocationInfo>)
        ensures
            r@ == self@.candidates,
    {
        &self.geocoding
    }

    /// The candidate chosen by the user, if any.
    pub fn selected_location(&self) -> (r: Option<&LocationInfo>)
        ensures
            r == match self@.selected {
                Some(c) => Some(&c),
                None => None::<&LocationInfo>,
            },
    {
        match &self.selected_location {
            Some(c) => Some(c),
            None => None,
        }
    }

    /// Seconds since startup.
    pub fn uptime(&self) -> (r: u64)
        ensures
            r == self@.uptime,
    {
        self.uptime
    }

    /// The refresh phase of the state.
    pub fn phase(&self) -> (r: Phase)
        ensures
            r == phase_of(self@),
    {
        if self.current_weather.is_some() {
            Phase::SteadyState
        } else {
            Phase::Bootstrapping
        }
    }

    /// The timers to run in the current state.
    pub fn subscription(&self) -> (r: Vec<Timer>)
        ensures
            r@ == timers(self@),
    {
        let mut r = vec![
            Timer { every_ms: CLOCK_TICK_MS, tick: Tick::UpdateCTime },
            Timer { every_ms: UPTIME_TICK_MS, tick: Tick::UpdateUptime },
        ];
        if self.location.is_none() && self.conf.autodetect_location {
            r.push(Timer { every_ms: LOCATION_RETRY_MS, tick: Tick::AutoDetectLocation });
        }
        let every_ms = match self.phase() {
            Phase::Bootstrapping => WEATHER_RETRY_MS,
            Phase::SteadyState => WEATHER_REFRESH_MS,
        };
        r.push(Timer { every_ms, tick: Tick::GetCurrentWeather });
        assert(r@ =~= timers(self@));
        r
    }

    /// The colour scheme for the kiosk's local time.
    pub fn theme(&self) -> (r: Theme)
        ensures
            r == theme_of(self@),
    {
        match local_time(self.ctime, self.local_offset) {
            Some(t) => if t.hour >= 6 && t.hour < 22 {
                Theme::GruvboxLight
            } else {
                Theme::GruvboxDark
            },
            None => Theme::GruvboxLight,
        }
    }

    /// What the screen shows in the current state.
    pub fn presentation(&self) -> (r: Presentation)
        ensures
            r.description@ == shown_description(self@),
            r.icon@ == shown_icon(self@),
            r.temperature@ == shown_temperature(self@),
            r.place@ == shown_place(self@),
            r.clock@ == shown_clock(self@),
            r.uptime@ == shown_uptime(self@),
            opt_view(r.error) == self@.last_error,
    {
        proof {
            reveal_strlit(" (");
            reveal_strlit(")");
        }
        let (description, icon, place, hundredths) = match &self.current_weather {
            Some(c) => {
                let icon = match c.get_time() {
                    Some(t) => String::from_str(c.weather.get_icon(&t)),
                    None => String::from_str("default"),
                };
                let mut place = c.name.clone();
                place.append(" (");
                place.append(c.sys.country.as_str());
                place.append(")");
                (String::from_str(c.weather.get_descr()), icon, place, c.main.feels_like)
            },
            None => (
                String::from_str("Загружаем инф-цию..."),
                String::from_str("default"),
                String::from_str("Загружаем информацию..."),
                0i32,
            ),
        };
        let mut temperature = signed_decimal_text(floor_hundredths(hundredths));
        temperature.append(Variant::Degrees.to_str(self.conf.units));
        let clock = match local_time(self.ctime, self.local_offset) {
            Some(t) => Time::new(t).set_display_mode(DisplayMode::TimeDate).to_string(),
            None => String::new(),
        };
        let mut uptime = String::from_str("Время работы: ");
        if self.uptime <= MAX_TIMESTAMP as u64 {
            match local_time(self.uptime as i64, 0) {
                Some(t) => {
                    let text = Time::new(t).set_display_mode(DisplayMode::TimeWithSeconds).to_string();
                    uptime.append(text.as_str());
                },
                None => {},
            }
        }
        let error = match &self.error_text {
            Some(e) => Some(e.clone()),
            None => None,
        };
        Presentation { description, icon, temperature, place, clock, uptime, error }
    }

    fn weather_url(&self, loc: Location) -> (r: String)
        ensures
            r@ == weather_request(self@, loc),
    {
        let request = Weather::new(loc, self.conf.appid.as_str()).set_units(self.conf.units);
        request.request_url()
    }

    /// Handles one event: changes the state and says which fetch to start.
    pub fn update(&mut self, message: Message) -> (r: Action)
        ensures
            final(self)@ == next_state(old(self)@, message),
            planned_action(old(self)@, message, r),
    {
        let ghost m = message;
        match message {
            Message::AutoDetectLocation => {
                if self.location.is_none() && self.conf.autodetect_location {
                    Action::FetchLocation
                } else {
                    Action::Nothing
                }
            },
            Message::LocationReceived(Ok(l)) => {
                if l.is_valid() {
                    self.location = Some(l);
                    self.error_text = None;
                } else {
                    self.error_text = Some(out_of_range_error().message());
                }
                Action::Nothing
            },
            Message::LocationReceived(Err(e)) => {
                self.error_text = Some(e.message());
                Action::Nothing
            },
            Message::GetCurrentWeather | Message::RefreshButtonPressed => {
                match self.location {
                    Some(l) => Action::FetchWeather(self.weather_url(l)),
                    None => {
                        self.error_text = Some(FetchError::UnresolvedLocation.message());
                        Action::Nothing
                    },
                }
            },
            Message::CurrentWeatherReceived(Ok(c)) => {
                self.current_weather = Some(c);
                self.error_text = None;
                Action::Nothing
            },
            Message::CurrentWeatherReceived(Err(e)) => {
                self.error_text = Some(e.message());
                Action::Nothing
            },
            Message::SearchLocation(q) => {
                match search_query(q.as_str(), self.conf.default_city.as_str()) {
                    Ok(name) => Action::SearchLocations(name.request_url(self.conf.appid.as_str())),
                    Err(e) => {
                        self.error_text = Some(e.message());
                        Action::Nothing
                    },
                }
            },
            Message::CandidatesReceived(Ok(list)) => {
                self.geocoding = dedup_candidates(list);
                self.error_text = None;
                Action::Nothing
            },
            Message::CandidatesReceived(Err(e)) => {
                self.error_text = Some(e.message());
                Action::Nothing
            },
            Message::SelectCandidate(i) => {
                if i < self.geocoding.len() && !Location::from_geo(&self.geocoding[i]).is_valid() {
                    self.error_text = Some(out_of_range_error().message());
                    Action::Nothing
                } else if i < self.geocoding.len() {
                    let chosen = self.geocoding.remove(i);
                    let loc = Location::from_geo(&chosen);
                    self.location = Some(loc);
                    self.selected_location = Some(chosen);
                    self.geocoding = Vec::new();
                    Action::FetchWeather(self.weather_url(loc))
                } else {
                    Action::Nothing
                }
            },
            Message::UpdateCTime(now, offset) => {
                self.ctime = now;
                self.local_offset = offset;
                Action::Nothing
            },
            Message::UpdateUptime => {
                if self.uptime < u64::MAX {
                    self.uptime = self.uptime + 1;
                }
                Action::Nothing
            },
        }
    }
}

/// Two failed fetches in a row keep the weather as it was, and the error
/// shown is the later one alone.
pub proof fn failed_fetch_is_idempotent(v: IceView, first: FetchError, second: FetchError)
    ensures
        ({
            let after = next_state(
                next_state(v, Message::CurrentWeatherReceived(Err(first))),
                Message::CurrentWeatherReceived(Err(second)),
            );
            &&& after.weather == v.weather
            &&& after.last_error == Some(error_text(second))
        }),
{
}

/// Asking for weather with no known location starts no fetch, records the
/// unresolved-location error and leaves any weather shown untouched.
pub proof fn weather_without_location(v: IceView, a: Action)
    requires
        v.location is None,
    ensures
        planned_action(v, Message::GetCurrentWeather, a) <==> a is Nothing,
        next_state(v, Message::GetCurrentWeather).weather == v.weather,
        next_state(v, Message::GetCurrentWeather).last_error == Some(
            error_text(FetchError::UnresolvedLocation),
        ),
{
}

/// A successful weather fetch always ends bootstrapping, and no event ever
/// leads back from the steady state.
pub proof fn steady_state_is_kept(v: IceView, m: Message, c: Current)
    ensures
        phase_of(next_state(v, Message::CurrentWeatherReceived(Ok(c)))) == Phase::SteadyState,
        phase_of(v) == Phase::SteadyState ==> phase_of(next_state(v, m)) == Phase::SteadyState,
{
}

/// A known location always has coordinates within the valid ranges.
pub proof fn location_stays_well_formed(v: IceView, m: Message)
    requires
        v.location matches Some(l) ==> l.wf(),
    ensures
        next_state(v, m).location matches Some(l) ==> l.wf(),
{
}

/// The uptime never decreases.
pub proof fn uptime_is_monotonic(v: IceView, m: Message)
    ensures
        next_state(v, m).uptime >= v.uptime,
{
}

} // verus!
