use ice::geo::{dedup_candidates, degrees_text, Location, LocationInfo, LocationName};

fn candidate(name: &str, country: &str, state: Option<&str>, lat: i32) -> LocationInfo {
    LocationInfo {
        name: name.to_string(),
        local_names: None,
        lat,
        lon: 43_000_000,
        country: country.to_string(),
        state: state.map(|s| s.to_string()),
    }
}

#[test]
fn query_round_trip() {
    let name = LocationName::new("Dzerzhinsk").set_state("Nizhny Novgorod Oblast").set_country("Russia");
    let text = name.to_string();
    assert_eq!(text, "Dzerzhinsk,Nizhny Novgorod Oblast,Russia");
    let back = LocationName::from_str(&text).unwrap();
    assert_eq!(back.city(), "Dzerzhinsk");
    assert_eq!(back.state().as_deref(), Some("Nizhny Novgorod Oblast"));
    assert_eq!(back.country().as_deref(), Some("Russia"));

    let city_only = LocationName::from_str(&LocationName::new("Дзержинск").to_string()).unwrap();
    assert_eq!(city_only.city(), "Дзержинск");
    assert_eq!(city_only.state(), None);
    assert_eq!(city_only.country(), None);
}

#[test]
fn query_pieces() {
    let two = LocationName::from_str("Moscow,RU").unwrap();
    assert_eq!(two.city(), "Moscow");
    assert_eq!(two.state().as_deref(), Some("RU"));
    assert_eq!(two.country(), None);
    assert!(LocationName::from_str("a,b,c,d").is_none());
}

#[test]
fn empty_middle_piece_is_rejected() {
    assert!(LocationName::from_str("Dzerzhinsk,,Russia").is_none());
    assert!(LocationName::from_str("Dzerzhinsk,").is_none());
    assert!(LocationName::from_str(",Russia").is_none());
    assert!(LocationName::from_str("").is_none());
}

#[test]
fn geocoding_request_url() {
    let name = LocationName::new("Moscow").set_state("RU");
    assert_eq!(
        name.request_url("KEY"),
        "http://api.openweathermap.org/geo/1.0/direct?q=Moscow,RU&limit=5&appid=KEY"
    );
}

#[test]
fn candidate_identity_ignores_coordinates() {
    let a = candidate("Dzerzhinsk", "RU", Some("Nizhny Novgorod Oblast"), 56_238_000);
    let b = candidate("Dzerzhinsk", "RU", Some("Nizhny Novgorod Oblast"), 56_238_001);
    let c = candidate("Dzerzhinsk", "RU", None, 56_238_000);
    assert!(a == b);
    assert!(a != c);
    assert_eq!(a.to_string(), "Dzerzhinsk (Nizhny Novgorod Oblast, RU)");
    assert_eq!(c.to_string(), "Dzerzhinsk (RU)");
}

#[test]
fn dedup_keeps_first_of_each_place() {
    let list = vec![
        candidate("A", "RU", Some("X"), 1),
        candidate("B", "RU", None, 2),
        candidate("A", "RU", Some("X"), 3),
        candidate("A", "RU", Some("Y"), 4),
        candidate("B", "RU", None, 5),
    ];
    let kept = dedup_candidates(list);
    let lats: Vec<i32> = kept.iter().map(|c| c.lat).collect();
    assert_eq!(lats, vec![1, 2, 4]);
    assert!(dedup_candidates(vec![]).is_empty());
}

#[test]
fn coordinates_as_text() {
    assert_eq!(degrees_text(-56_328_700), "-56.328700");
    assert_eq!(degrees_text(180_000_000), "180.000000");
    assert_eq!(degrees_text(-5), "-0.000005");
    assert_eq!(degrees_text(i32::MIN), "-2147.483648");
    let loc = Location { lat: 56_328_700, lon: 44_002_000 };
    assert_eq!(loc.to_string(), "56.328700,44.002000");
    let from = Location::from_geo(&candidate("A", "RU", None, 7));
    assert_eq!(from, Location { lat: 7, lon: 43_000_000 });
}
