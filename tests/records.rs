use gtfs::error::{DecodeReason, FieldError};
use gtfs::row::lookup;
use gtfs::{Agency, Color, ContinuousStopping, Route, RouteKind};

fn strings(items: &[&str]) -> Vec<String> {
    items.iter().map(|s| s.to_string()).collect()
}

fn missing(record_type: &str, field: &str) -> FieldError {
    FieldError::MissingRequiredField { record_type: record_type.to_string(), field: field.to_string() }
}

fn invalid(record_type: &str, field: &str, raw: &str, reason: DecodeReason) -> FieldError {
    FieldError::InvalidFieldValue {
        record_type: record_type.to_string(),
        field: field.to_string(),
        raw: raw.to_string(),
        reason,
    }
}

#[test]
fn agency_row_decodes() {
    let header = strings(&[
        "agency_id",
        "agency_name",
        "agency_url",
        "agency_timezone",
        "agency_lang",
        "agency_phone",
    ]);
    let row = strings(&["1", "Metro", "https://metro.example", "Europe/Berlin", "de-de", ""]);
    let a = Agency::from_row(&header, &row).unwrap();
    assert_eq!(a.id, "1");
    assert_eq!(a.name, "Metro");
    assert_eq!(a.url, "https://metro.example");
    assert_eq!(a.timezone, "Europe/Berlin");
    assert_eq!(a.lang.as_deref(), Some("de-DE"));
    assert_eq!(a.phone, None);
    assert_eq!(a.fare_url, None);
    assert_eq!(a.email, None);
}

#[test]
fn agency_without_timezone_column_fails() {
    let header = strings(&["agency_id", "agency_name", "agency_url"]);
    let row = strings(&["1", "Metro", "https://metro.example"]);
    assert_eq!(Agency::from_row(&header, &row).unwrap_err(), missing("Agency", "timezone"));
}

#[test]
fn agency_with_unknown_timezone_fails() {
    let header = strings(&["agency_id", "agency_name", "agency_url", "agency_timezone"]);
    let row = strings(&["1", "Metro", "https://metro.example", "Not/AZone"]);
    assert_eq!(
        Agency::from_row(&header, &row).unwrap_err(),
        invalid("Agency", "timezone", "Not/AZone", DecodeReason::UnknownTimezone)
    );
}

#[test]
fn agency_zone_names_are_exact() {
    let header = strings(&["agency_id", "agency_name", "agency_url", "agency_timezone"]);
    let row = strings(&["1", "Metro", "https://metro.example", "europe/berlin"]);
    assert_eq!(
        Agency::from_row(&header, &row).unwrap_err(),
        invalid("Agency", "timezone", "europe/berlin", DecodeReason::UnknownTimezone)
    );
    let row = strings(&["1", "Metro", "https://metro.example", "US/Eastern"]);
    assert_eq!(Agency::from_row(&header, &row).unwrap().timezone, "US/Eastern");
}

#[test]
fn agency_with_malformed_language_fails() {
    let header =
        strings(&["agency_id", "agency_name", "agency_url", "agency_timezone", "agency_lang"]);
    let row = strings(&["1", "Metro", "https://metro.example", "America/New_York", "not a tag"]);
    assert_eq!(
        Agency::from_row(&header, &row).unwrap_err(),
        invalid("Agency", "lang", "not a tag", DecodeReason::MalformedLanguageTag)
    );
}

#[test]
fn agency_missing_name_is_reported_first() {
    let header = strings(&["agency_id", "agency_url"]);
    let row = strings(&["1", "https://metro.example"]);
    assert_eq!(Agency::from_row(&header, &row).unwrap_err(), missing("Agency", "name"));
}

fn route_header() -> Vec<String> {
    strings(&[
        "route_id",
        "agency_id",
        "route_short_name",
        "route_long_name",
        "route_type",
        "route_color",
        "route_text_color",
        "route_sort_order",
        "continuous_pickup",
        "continuous_drop_off",
    ])
}

#[test]
fn route_row_decodes() {
    let row = strings(&["r1", "a1", "32", "Downtown", "3", "FF0000", "ffffff", "7", "2", ""]);
    let r = Route::from_row(&route_header(), &row).unwrap();
    assert_eq!(r.id, "r1");
    assert_eq!(r.agency_id, "a1");
    assert_eq!(r.short_name, "32");
    assert_eq!(r.long_name, "Downtown");
    assert_eq!(r.kind, RouteKind::Bus);
    assert_eq!(r.color, Some(Color { r: 255, g: 0, b: 0 }));
    assert_eq!(r.text_color, Some(Color { r: 255, g: 255, b: 255 }));
    assert_eq!(r.sort_order, Some(7));
    assert_eq!(r.continuous_pickup, Some(ContinuousStopping::Phone));
    assert_eq!(r.continuous_drop_off, None);
    assert_eq!(r.desc, None);
    assert_eq!(r.url, None);
}

#[test]
fn route_with_both_names_empty_fails() {
    let row = strings(&["r1", "a1", "", "", "3", "", "", "", "", ""]);
    assert_eq!(Route::from_row(&route_header(), &row).unwrap_err(), missing("Route", "short_name"));
}

#[test]
fn route_with_one_name_succeeds() {
    let short_only = strings(&["r1", "a1", "S1", "", "0", "", "", "", "", ""]);
    assert_eq!(Route::from_row(&route_header(), &short_only).unwrap().short_name, "S1");
    let long_only = strings(&["r1", "a1", "", "Airport Line", "109", "", "", "", "", ""]);
    let r = Route::from_row(&route_header(), &long_only).unwrap();
    assert_eq!(r.long_name, "Airport Line");
    assert_eq!(r.kind, RouteKind::SuburbanRailway);
}

#[test]
fn route_without_name_columns_fails() {
    let header = strings(&["route_id", "agency_id", "route_type"]);
    let row = strings(&["r1", "a1", "3"]);
    assert_eq!(Route::from_row(&header, &row).unwrap_err(), missing("Route", "short_name"));
}

#[test]
fn route_field_errors_come_before_the_name_rule() {
    let row = strings(&["r1", "a1", "", "", "13", "", "", "", "", ""]);
    assert_eq!(
        Route::from_row(&route_header(), &row).unwrap_err(),
        invalid("Route", "kind", "13", DecodeReason::UnknownCode { value: 13 })
    );
}

#[test]
fn route_field_errors() {
    let bad_color = strings(&["r1", "a1", "1", "", "3", "F00", "", "", "", ""]);
    assert_eq!(
        Route::from_row(&route_header(), &bad_color).unwrap_err(),
        invalid("Route", "color", "F00", DecodeReason::InvalidLength { expected: 6, found: 3 })
    );
    let bad_sort = strings(&["r1", "a1", "1", "", "3", "", "", "x", "", ""]);
    assert_eq!(
        Route::from_row(&route_header(), &bad_sort).unwrap_err(),
        invalid("Route", "sort_order", "x", DecodeReason::NotAnInteger)
    );
    let bad_drop_off = strings(&["r1", "a1", "1", "", "3", "", "", "", "", "9"]);
    assert_eq!(
        Route::from_row(&route_header(), &bad_drop_off).unwrap_err(),
        invalid("Route", "continuous_drop_off", "9", DecodeReason::UnknownCode { value: 9 })
    );
    let no_type = strings(&["route_id", "agency_id", "route_short_name"]);
    assert_eq!(
        Route::from_row(&no_type, &strings(&["r1", "a1", "1"])).unwrap_err(),
        missing("Route", "kind")
    );
}

#[test]
fn first_column_of_a_name_wins() {
    let header = strings(&["a", "b", "a"]);
    let row = strings(&["1", "2", "3"]);
    assert_eq!(lookup(&header, &row, "a"), Some(&"1".to_string()));
    assert_eq!(lookup(&header, &row, "c"), None);
    let short = strings(&["1"]);
    assert_eq!(lookup(&header, &short, "b"), None);
}
