use ice::config::Config;
use ice::geo::{Location, LocationInfo};
use ice::ui::{Action, FetchError, Ice, Message, Phase, Theme, Tick, Timer};
use ice::weather::{Current, Main, Sys, WeatherDescription, WeatherMeta, Wind};

fn observation(code: u16, feels_like: i32) -> Current {
    Current {
        name: "Nizhny Novgorod".to_string(),
        coord: Location { lat: 56_328_700, lon: 44_002_000 },
        main: Main { feels_like, pressure: 1013, temp: feels_like + 100, temp_max: 0, temp_min: 0 },
        sys: Sys { country: "RU".to_string(), sunrise: 0, sunset: 0 },
        dt: 36_000,
        timezone: 0,
        weather: WeatherMeta { id: code, main: WeatherDescription::Clear },
        wind: Wind { deg: 90, gust: None, speed: 300 },
    }
}

fn fixed_location_config() -> Config {
    let mut conf = Config::default();
    conf.autodetect_location = false;
    conf.appid = "KEY".to_string();
    conf
}

#[test]
fn clear_sky_at_ten_reaches_steady_state() {
    let mut ice = Ice::new(Config::default(), 36_000, 0);
    assert_eq!(ice.phase(), Phase::Bootstrapping);
    let action = ice.update(Message::CurrentWeatherReceived(Ok(observation(800, -250))));
    assert!(matches!(action, Action::Nothing));
    assert_eq!(ice.phase(), Phase::SteadyState);
    let shown = ice.presentation();
    assert_eq!(shown.description, "ясно");
    assert_eq!(shown.icon, "clear_day");
    assert_eq!(shown.temperature, "-3°C");
    assert_eq!(shown.place, "Nizhny Novgorod (RU)");
    assert_eq!(shown.clock, "01.01.1970 10:00");
    assert_eq!(shown.error, None);
}

#[test]
fn presentation_before_any_weather() {
    let ice = Ice::new(Config::default(), 0, 0);
    let shown = ice.presentation();
    assert_eq!(shown.description, "Загружаем инф-цию...");
    assert_eq!(shown.icon, "default");
    assert_eq!(shown.temperature, "0°C");
    assert_eq!(shown.place, "Загружаем информацию...");
    assert_eq!(shown.uptime, "Время работы: 0:00:00");
}

#[test]
fn failed_fetch_twice_keeps_weather_and_latest_error() {
    let mut ice = Ice::new(fixed_location_config(), 36_000, 0);
    ice.update(Message::CurrentWeatherReceived(Ok(observation(804, 1050))));
    ice.update(Message::CurrentWeatherReceived(Err(FetchError::Network("timeout".to_string()))));
    ice.update(Message::CurrentWeatherReceived(Err(FetchError::Decode("missing field `dt`".to_string()))));
    assert_eq!(ice.weather().unwrap().weather.id, 804);
    assert_eq!(ice.weather().unwrap().main.feels_like, 1050);
    assert_eq!(
        ice.error_text().as_deref(),
        Some("Ошибка получения JSON с сервера (missing field `dt`)")
    );
    let shown = ice.presentation();
    assert_eq!(shown.description, "пасмурно");
    assert_eq!(shown.temperature, "10°C");
    ice.update(Message::CurrentWeatherReceived(Ok(observation(800, 0))));
    assert_eq!(ice.error_text(), None);
}

#[test]
fn weather_without_location_fails_at_once() {
    let mut ice = Ice::new(Config::default(), 0, 0);
    let action = ice.update(Message::GetCurrentWeather);
    assert!(matches!(action, Action::Nothing));
    assert_eq!(ice.error_text().as_deref(), Some("Неизвестное местоположение"));
    assert!(ice.weather().is_none());

    ice.update(Message::CurrentWeatherReceived(Ok(observation(500, 0))));
    let action = ice.update(Message::RefreshButtonPressed);
    assert!(matches!(action, Action::Nothing));
    assert_eq!(ice.weather().unwrap().weather.id, 500);
    assert_eq!(ice.error_text().as_deref(), Some("Неизвестное местоположение"));
}

#[test]
fn weather_fetch_for_known_location() {
    let mut ice = Ice::new(fixed_location_config(), 0, 0);
    match ice.update(Message::GetCurrentWeather) {
        Action::FetchWeather(url) => assert_eq!(
            url,
            "https://api.openweathermap.org/data/2.5/weather?appid=KEY&units=metric&lat=56.328700&lon=44.002000"
        ),
        other => panic!("unexpected action {:?}", other),
    }
}

#[test]
fn location_detection() {
    let mut ice = Ice::new(Config::default(), 0, 0);
    assert!(matches!(ice.update(Message::AutoDetectLocation), Action::FetchLocation));
    ice.update(Message::LocationReceived(Err(FetchError::Network("offline".to_string()))));
    assert_eq!(ice.error_text().as_deref(), Some("Ошибка получения данных с сервера. Проверьте подключение к сети и корректность запроса (offline)"));
    assert_eq!(ice.location(), None);
    ice.update(Message::LocationReceived(Ok(Location { lat: 1, lon: 2 })));
    assert_eq!(ice.location(), Some(Location { lat: 1, lon: 2 }));
    assert_eq!(ice.error_text(), None);
    assert!(matches!(ice.update(Message::AutoDetectLocation), Action::Nothing));

    let mut fixed = Ice::new(fixed_location_config(), 0, 0);
    assert!(matches!(fixed.update(Message::AutoDetectLocation), Action::Nothing));
}

#[test]
fn timers_follow_the_phase() {
    let mut ice = Ice::new(Config::default(), 0, 0);
    let clock = Timer { every_ms: 500, tick: Tick::UpdateCTime };
    let uptime = Timer { every_ms: 1000, tick: Tick::UpdateUptime };
    assert_eq!(
        ice.subscription(),
        vec![
            clock,
            uptime,
            Timer { every_ms: 500, tick: Tick::AutoDetectLocation },
            Timer { every_ms: 1000, tick: Tick::GetCurrentWeather },
        ]
    );
    ice.update(Message::LocationReceived(Ok(Location { lat: 1, lon: 2 })));
    ice.update(Message::CurrentWeatherReceived(Ok(observation(800, 0))));
    assert_eq!(
        ice.subscription(),
        vec![clock, uptime, Timer { every_ms: 600_000, tick: Tick::GetCurrentWeather }]
    );
}

#[test]
fn search_and_select_candidate() {
    let mut ice = Ice::new(fixed_location_config(), 0, 0);
    ice.update(Message::SearchLocation("Dzerzhinsk,,Russia".to_string()));
    assert_eq!(ice.error_text().as_deref(), Some("Некорректное местоположение"));

    match ice.update(Message::SearchLocation(String::new())) {
        Action::SearchLocations(url) => assert_eq!(
            url,
            "http://api.openweathermap.org/geo/1.0/direct?q=Нижний Новгород&limit=5&appid=KEY"
        ),
        other => panic!("unexpected action {:?}", other),
    }
    let place = |state: &str, lat: i32| LocationInfo {
        name: "Dzerzhinsk".to_string(),
        local_names: None,
        lat,
        lon: 43_000_000,
        country: "RU".to_string(),
        state: Some(state.to_string()),
    };
    ice.update(Message::CandidatesReceived(Ok(vec![place("A", 1), place("A", 2), place("B", 3)])));
    assert_eq!(ice.candidates().len(), 2);
    match ice.update(Message::SelectCandidate(1)) {
        Action::FetchWeather(url) => assert!(url.ends_with("lat=0.000003&lon=43.000000")),
        other => panic!("unexpected action {:?}", other),
    }
    assert_eq!(ice.location(), Some(Location { lat: 3, lon: 43_000_000 }));
    assert_eq!(ice.selected_location().unwrap().state.as_deref(), Some("B"));
    assert!(ice.candidates().is_empty());
    assert!(matches!(ice.update(Message::SelectCandidate(0)), Action::Nothing));
}

#[test]
fn uptime_clock_and_theme() {
    let mut ice = Ice::new(Config::default(), 23 * 3600, 0);
    assert_eq!(ice.theme(), Theme::GruvboxDark);
    for _ in 0..3 {
        ice.update(Message::UpdateUptime);
    }
    assert_eq!(ice.uptime(), 3);
    assert_eq!(ice.presentation().uptime, "Время работы: 0:00:03");
    ice.update(Message::UpdateCTime(12 * 3600, 3 * 3600));
    assert_eq!(ice.theme(), Theme::GruvboxLight);
    assert_eq!(ice.presentation().clock, "01.01.1970 15:00");
}

#[test]
fn error_messages() {
    assert_eq!(FetchError::Parse.message(), "Некорректное местоположение");
    assert_eq!(FetchError::UnresolvedLocation.message(), "Неизвестное местоположение");
    assert_eq!(FetchError::Network("x".to_string()).message(),
        "Ошибка получения данных с сервера. Проверьте подключение к сети и корректность запроса (x)"
    );
    assert_eq!(FetchError::Decode("y".to_string()).message(), "Ошибка получения JSON с сервера (y)");
}

#[test]
fn icon_follows_observation_time_not_kiosk_clock() {
    // Observed at 10:00 at the place, shown while the kiosk clock reads 00:00.
    let mut ice = Ice::new(Config::default(), 0, 0);
    ice.update(Message::CurrentWeatherReceived(Ok(observation(800, 0))));
    assert_eq!(ice.presentation().icon, "clear_day");
    ice.update(Message::UpdateCTime(80_000, 0));
    assert_eq!(ice.presentation().icon, "clear_day");

    let mut evening = observation(800, 0);
    evening.dt = 4 * 3600;
    evening.timezone = 3 * 3600;
    ice.update(Message::CurrentWeatherReceived(Ok(evening)));
    assert_eq!(ice.presentation().icon, "clear_evening");
}

#[test]
fn coordinates_out_of_range_are_not_installed() {
    let mut ice = Ice::new(Config::default(), 0, 0);
    ice.update(Message::LocationReceived(Ok(Location { lat: 90_000_001, lon: 0 })));
    assert_eq!(ice.location(), None);
    assert_eq!(
        ice.error_text().as_deref(),
        Some("Ошибка получения JSON с сервера (координаты вне допустимого диапазона)")
    );
    ice.update(Message::LocationReceived(Ok(Location { lat: -90_000_000, lon: 180_000_000 })));
    assert_eq!(ice.location(), Some(Location { lat: -90_000_000, lon: 180_000_000 }));

    let bad = LocationInfo {
        name: "Nowhere".to_string(),
        local_names: None,
        lat: 0,
        lon: 200_000_000,
        country: "XX".to_string(),
        state: None,
    };
    ice.update(Message::CandidatesReceived(Ok(vec![bad])));
    assert!(matches!(ice.update(Message::SelectCandidate(0)), Action::Nothing));
    assert_eq!(ice.location(), Some(Location { lat: -90_000_000, lon: 180_000_000 }));
    assert!(ice.error_text().is_some());

    let mut conf = fixed_location_config();
    conf.coords = Some(Location { lat: 0, lon: -180_000_001 });
    assert_eq!(Ice::new(conf, 0, 0).location(), None);
}
