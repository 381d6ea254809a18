use ice::config::Config;
use ice::geo::Location;
use ice::units::{Units, Variant};
use ice::widgets::KeyValueView;

#[test]
fn units_and_labels() {
    assert_eq!(Units::default(), Units::Metric);
    assert_eq!(Units::Metric.to_string(), "metric");
    assert_eq!(Units::Imperial.to_string(), "imperial");
    assert_eq!(Variant::Degrees.to_str(Units::Metric), "°C");
    assert_eq!(Variant::Degrees.to_str(Units::Imperial), "°F");
    assert_eq!(Variant::Speed.to_str(Units::Metric), "m/s");
    assert_eq!(Variant::Speed.to_str(Units::Imperial), "km/h");
}

#[test]
fn default_config() {
    let conf = Config::default();
    assert_eq!(conf.coords, Some(Location { lat: 56_328_700, lon: 44_002_000 }));
    assert_eq!(conf.units, Units::Metric);
    assert_eq!(conf.appid, "26896f0fe821b98790eeae3a316f3358");
    assert!(conf.autodetect_location);
    assert_eq!(conf.default_city, "Нижний Новгород");
}

#[test]
fn key_value_rows() {
    let mut kv = KeyValueView::new();
    assert_eq!(kv.len(), 0);
    kv.add_item("Давление", "1013");
    kv.add_item_with_units("Ветер", "3", "m/s");
    assert_eq!(kv.len(), 2);
    assert_eq!(kv.row_text(0), ("Давление".to_string(), "1013".to_string()));
    assert_eq!(kv.row_text(1), ("Ветер".to_string(), "3m/s".to_string()));
}
