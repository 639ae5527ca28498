use gtfs::error::{DecodeReason, FieldError, LoadError, RowDecodeFailed};
use gtfs::feed::parse_file_lenient;
use gtfs::schema::{AgencySchema, RawSchema, RouteSchema, TableId};
use gtfs::table::{load_table, load_table_lenient};
use gtfs::{load_feed, parse_file, RouteKind, SourceFile};

const AGENCY: &str = "agency_id,agency_name,agency_url,agency_timezone\n\
                      A,Metro,https://metro.example,Europe/Berlin\n";
const ROUTES: &str = "route_id,agency_id,route_short_name,route_long_name,route_type\n\
                      R1,A,1,,3\n\
                      R2,A,,Ring,0\n";
const STOPS: &str = "stop_id,stop_name\nS1,Central\nS2,Harbour\n";
const STOP_TIMES: &str = "trip_id,stop_id,stop_sequence\nT1,S1,1\nT1,S2,2\n";
const TRIPS: &str = "route_id,service_id,trip_id\nR1,WK,T1\n";

fn file(name: &str, text: &str) -> SourceFile {
    SourceFile { name: name.to_string(), contents: text.as_bytes().to_vec() }
}

fn mandatory() -> Vec<SourceFile> {
    vec![
        file("agency.txt", AGENCY),
        file("routes.txt", ROUTES),
        file("stops.txt", STOPS),
        file("stop_times.txt", STOP_TIMES),
        file("trips.txt", TRIPS),
    ]
}

fn strings(items: &[&str]) -> Vec<String> {
    items.iter().map(|s| s.to_string()).collect()
}

#[test]
fn feed_with_only_mandatory_files_loads() {
    let feed = load_feed(&mandatory()).unwrap();
    assert_eq!(feed.agencies.len(), 1);
    assert_eq!(feed.agencies[0].name, "Metro");
    assert_eq!(feed.routes.len(), 2);
    assert_eq!(feed.routes[1].kind, RouteKind::Tram);
    assert_eq!(feed.stops.len(), 2);
    assert_eq!(feed.stops[1].get("stop_name"), Some(&"Harbour".to_string()));
    assert_eq!(feed.stop_times.len(), 2);
    assert_eq!(feed.trips.len(), 1);
    assert!(feed.attributions.is_empty());
    assert!(feed.calendar.is_empty());
    assert!(feed.calendar_dates.is_empty());
    assert!(feed.fare_attributes.is_empty());
    assert!(feed.fare_rules.is_empty());
    assert!(feed.feed_info.is_empty());
    assert!(feed.frequencies.is_empty());
    assert!(feed.levels.is_empty());
    assert!(feed.pathways.is_empty());
    assert!(feed.shapes.is_empty());
    assert!(feed.transfers.is_empty());
}

#[test]
fn feed_without_stops_fails() {
    let mut files = mandatory();
    files.retain(|f| f.name != "stops.txt");
    let missing = |names: &[&str]| LoadError::MissingMandatoryFiles { file_names: strings(names) };
    assert_eq!(load_feed(&files).unwrap_err(), missing(&["stops.txt"]));
    files.push(file("trips.txt", "not,a\nfeed"));
    files.push(file("calendar.txt", "garbage"));
    files.retain(|f| f.name != "stop_times.txt");
    assert_eq!(load_feed(&files).unwrap_err(), missing(&["stop_times.txt", "stops.txt"]));
    files.retain(|f| f.name != "agency.txt");
    assert_eq!(
        load_feed(&files).unwrap_err(),
        missing(&["agency.txt", "stop_times.txt", "stops.txt"])
    );
}

#[test]
fn first_failing_file_in_load_order_is_reported() {
    let mut files = mandatory();
    files.retain(|f| f.name != "trips.txt" && f.name != "agency.txt");
    files.push(file("trips.txt", "route_id,service_id,trip_id\nR1,WK\n"));
    files.push(file("calendar.txt", "service_id\nWK\n"));
    files.push(file("agency.txt", "agency_id,agency_name,agency_url,agency_timezone\nA,M,u,Nowhere\n"));
    match load_feed(&files).unwrap_err() {
        LoadError::FileDecodeFailed { file_name, .. } => assert_eq!(file_name, "agency.txt"),
        other => panic!("unexpected error {:?}", other),
    }
    files.retain(|f| f.name != "agency.txt");
    files.push(file("agency.txt", AGENCY));
    match load_feed(&files).unwrap_err() {
        LoadError::FileDecodeFailed { file_name, .. } => assert_eq!(file_name, "calendar.txt"),
        other => panic!("unexpected error {:?}", other),
    }
}

#[test]
fn feed_agency_table_matches_parse_file() {
    let feed = load_feed(&mandatory()).unwrap();
    let bytes = AGENCY.as_bytes().to_vec();
    let parsed = parse_file(&AgencySchema, "agency.txt", &bytes).unwrap();
    assert_eq!(feed.agencies.len(), parsed.len());
    assert_eq!(feed.agencies[0].timezone, "Europe/Berlin");
    assert_eq!(feed.agencies[0].timezone, parsed[0].timezone);
    assert_eq!(feed.agencies[0].id, parsed[0].id);
}

#[test]
fn feed_with_corrupt_optional_file_fails() {
    let mut files = mandatory();
    files.push(file("calendar.txt", "service_id,monday\nWK,1\n"));
    let err = load_feed(&files).unwrap_err();
    assert_eq!(
        err,
        LoadError::FileDecodeFailed {
            file_name: "calendar.txt".to_string(),
            cause: RowDecodeFailed {
                file_name: "calendar.txt".to_string(),
                row_number: 1,
                cause: FieldError::MissingRequiredField {
                    record_type: "Calendar".to_string(),
                    field: "tuesday".to_string(),
                },
            },
        }
    );
}

#[test]
fn feed_with_optional_file_present_loads_it() {
    let mut files = mandatory();
    files.push(file("levels.txt", "level_id,level_index\nL0,0\nL1,1\n"));
    let feed = load_feed(&files).unwrap();
    assert_eq!(feed.levels.len(), 2);
    assert_eq!(feed.levels[1].get("level_id"), Some(&"L1".to_string()));
}

#[test]
fn unreadable_file_is_reported() {
    let mut files = mandatory();
    files.retain(|f| f.name != "trips.txt");
    files.push(file("trips.txt", "route_id,service_id,trip_id\nR1,WK\n"));
    assert_eq!(
        load_feed(&files).unwrap_err(),
        LoadError::FileUnreadable { file_name: "trips.txt".to_string() }
    );
}

const ROUTES_WITH_BAD_ROW: &str = "route_id,agency_id,route_short_name,route_long_name,route_type\n\
                                   R1,A,1,,3\n\
                                   R2,A,2,,3\n\
                                   R3,A,3,,13\n\
                                   R4,A,4,,700\n";

fn bad_kind() -> FieldError {
    FieldError::InvalidFieldValue {
        record_type: "Route".to_string(),
        field: "kind".to_string(),
        raw: "13".to_string(),
        reason: DecodeReason::UnknownCode { value: 13 },
    }
}

#[test]
fn strict_load_stops_at_bad_row() {
    let bytes = ROUTES_WITH_BAD_ROW.as_bytes().to_vec();
    let err = parse_file(&RouteSchema, "routes.txt", &bytes).unwrap_err();
    assert_eq!(
        err,
        LoadError::FileDecodeFailed {
            file_name: "routes.txt".to_string(),
            cause: RowDecodeFailed {
                file_name: "routes.txt".to_string(),
                row_number: 3,
                cause: bad_kind(),
            },
        }
    );
}

fn routes_rows() -> Vec<Vec<String>> {
    vec![
        strings(&["route_id", "agency_id", "route_short_name", "route_long_name", "route_type"]),
        strings(&["R1", "A", "1", "", "3"]),
        strings(&["R2", "A", "2", "", "3"]),
        strings(&["R3", "A", "3", "", "13"]),
        strings(&["R4", "A", "4", "", "700"]),
    ]
}

#[test]
fn strict_table_load_reports_row_number() {
    let err = load_table(&RouteSchema, "routes.txt", &routes_rows()).unwrap_err();
    assert_eq!(
        err,
        RowDecodeFailed { file_name: "routes.txt".to_string(), row_number: 3, cause: bad_kind() }
    );
}

#[test]
fn lenient_load_keeps_other_rows() {
    let (routes, errors) = load_table_lenient(&RouteSchema, "routes.txt", &routes_rows());
    let ids: Vec<&str> = routes.iter().map(|r| r.id.as_str()).collect();
    assert_eq!(ids, vec!["R1", "R2", "R4"]);
    assert_eq!(routes[2].kind, RouteKind::BusService);
    assert_eq!(
        errors,
        vec![RowDecodeFailed { file_name: "routes.txt".to_string(), row_number: 3, cause: bad_kind() }]
    );
}

#[test]
fn lenient_file_parse_keeps_other_rows() {
    let bytes = ROUTES_WITH_BAD_ROW.as_bytes().to_vec();
    let (routes, errors) = parse_file_lenient(&RouteSchema, "routes.txt", &bytes).unwrap();
    let ids: Vec<&str> = routes.iter().map(|r| r.id.as_str()).collect();
    assert_eq!(ids, vec!["R1", "R2", "R4"]);
    assert_eq!(
        errors,
        vec![RowDecodeFailed { file_name: "routes.txt".to_string(), row_number: 3, cause: bad_kind() }]
    );
    let ragged = "a,b\n1\n".as_bytes().to_vec();
    assert_eq!(
        parse_file_lenient(&RouteSchema, "routes.txt", &ragged).unwrap_err(),
        LoadError::FileUnreadable { file_name: "routes.txt".to_string() }
    );
}

#[test]
fn empty_file_gives_empty_table() {
    let bytes: Vec<u8> = Vec::new();
    let out = parse_file(&RawSchema { table: TableId::Shapes }, "shapes.txt", &bytes).unwrap();
    assert!(out.is_empty());
    let header_only = "shape_id,shape_pt_lat,shape_pt_lon,shape_pt_sequence\n".as_bytes().to_vec();
    let out =
        parse_file(&RawSchema { table: TableId::Shapes }, "shapes.txt", &header_only).unwrap();
    assert!(out.is_empty());
}

#[test]
fn quoted_fields_are_split_by_the_reader() {
    let text = "stop_id,stop_name\n\"S,1\",\"Main \"\"Square\"\"\"\n".as_bytes().to_vec();
    let out = parse_file(&RawSchema { table: TableId::Stops }, "stops.txt", &text).unwrap();
    assert_eq!(out[0].get("stop_id"), Some(&"S,1".to_string()));
    assert_eq!(out[0].get("stop_name"), Some(&"Main \"Square\"".to_string()));
}
