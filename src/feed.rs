use vstd::prelude::*;
use crate::agency::Agency;
use crate::error::{LoadError, LoadErrorView, RowDecodeFailed};
use crate::outside::{csv_rows, split_rows};
use crate::route::Route;
use crate::schema::{AgencySchema, RawRecord, RawSchema, RouteSchema, Schema, TableId};
use crate::table::{
    data_len, first_bad_row, lenient_loaded, load_table, load_table_lenient, row_error_at,
    table_decodes,
};

verus! {

/// The names of the files that a feed may hold, in the order they are loaded.
pub const FILE_NAMES: [&'static str; 16] = [
    "agency.txt",
    "attributions.txt",
    "calendar.txt",
    "calendar_dates.txt",
    "fare_attributes.txt",
    "fare_rules.txt",
    "feed_info.txt",
    "frequencies.txt",
    "levels.txt",
    "routes.txt",
    "pathways.txt",
    "shapes.txt",
    "stops.txt",
    "stop_times.txt",
    "transfers.txt",
    "trips.txt",
];

/// One file of a feed, as it was supplied: its name and its bytes.
#[derive(Debug)]
pub struct SourceFile {
    pub name: String,
    pub contents: Vec<u8>,
}

/// Whether `i` is the first file of `files` named `name`.
pub open spec fn first_source(files: Seq<SourceFile>, name: Seq<char>, i: int) -> bool {
    &&& 0 <= i < files.len()
    &&& files[i].name@ == name
    &&& forall|j: int| 0 <= j < i ==> (#[trigger] files[j]).name@ != name
}

/// The bytes of the first file of `files` named `name`, if one was supplied.
pub open spec fn source_of(files: Seq<SourceFile>, name: Seq<char>) -> Option<Seq<u8>> {
    if exists|i: int| first_source(files, name, i) {
        Some(files[choose|i: int| first_source(files, name, i)].contents@)
    } else {
        None
    }
}

/// `name`, alone, where no file of that name was supplied; else nothing.
pub open spec fn absent_name(files: Seq<SourceFile>, name: Seq<char>) -> Seq<Seq<char>> {
    if source_of(files, name) is None {
        seq![name]
    } else {
        Seq::empty()
    }
}

/// The mandatory files that were not supplied, sorted by name.
pub open spec fn missing_mandatory(files: Seq<SourceFile>) -> Seq<Seq<char>> {
    absent_name(files, "agency.txt"@) + absent_name(files, "routes.txt"@) + absent_name(
        files,
        "stop_times.txt"@,
    ) + absent_name(files, "stops.txt"@) + absent_name(files, "trips.txt"@)
}

/// Whether a file loads under `s`: it is absent, or its rows all decode.
pub open spec fn file_loads<S: Schema>(s: S, src: Option<Seq<u8>>) -> bool {
    match src {
        None => true,
        Some(b) => csv_rows(b) matches Some(rs) && table_decodes(s, rs),
    }
}

/// Whether `out` is the table loaded from `src` under `s`: empty where the file
/// is absent, else one record per data row, in order.
pub open spec fn table_loaded<S: Schema>(s: S, src: Option<Seq<u8>>, out: Seq<S::Output>) -> bool {
    match src {
        None => out.len() == 0,
        Some(b) => csv_rows(b) matches Some(rs) && out.len() == data_len(rs) && forall|i: int|
            0 <= i < out.len() ==> s.decoded(#[trigger] out[i], rs[0], rs[i + 1]),
    }
}

/// Whether `e` is the error of loading the file `name` from `src` under `s`:
/// the file is present and either cannot be split into rows, or its first
/// row that does not decode is reported.
pub open spec fn file_failure<S: Schema>(
    s: S,
    name: Seq<char>,
    src: Option<Seq<u8>>,
    e: LoadErrorView,
) -> bool {
    match src {
        None => false,
        Some(b) => match csv_rows(b) {
            None => e == LoadErrorView::FileUnreadable { file_name: name },
            Some(rs) => exists|i: int|
                first_bad_row(s, rs, i) && e == LoadErrorView::FileDecodeFailed {
                    file_name: name,
                    cause: row_error_at(s, name, rs, i),
                },
        },
    }
}

/// Reads the records of one file under `schema`: the file is split into rows,
/// the first being the header, and each data row is decoded in order.
pub fn parse_file<S: Schema>(schema: &S, name: &str, bytes: &Vec<u8>) -> (r: Result<
    Vec<S::Output>,
    LoadError,
>)
    ensures
        r is Ok <==> file_loads(*schema, Some(bytes@)),
        match r {
            Ok(out) => table_loaded(*schema, Some(bytes@), out@),
            Err(e) => file_failure(*schema, name@, Some(bytes@), e@),
        },
{
    match split_rows(bytes.as_slice()) {
        None => Err(LoadError::FileUnreadable { file_name: name.to_owned() }),
        Some(rows) => match load_table(schema, name, &rows) {
            Ok(out) => Ok(out),
            Err(cause) => Err(LoadError::FileDecodeFailed { file_name: name.to_owned(), cause }),
        },
    }
}

/// Reads the records of one file under `schema`, setting aside the rows that do
/// not decode: gives the records of the others and the errors of those left
/// out, each in file order. Fails only where the file cannot be split into rows.
pub fn parse_file_lenient<S: Schema>(schema: &S, name: &str, bytes: &Vec<u8>) -> (r: Result<
    (Vec<S::Output>, Vec<RowDecodeFailed>),
    LoadError,
>)
    ensures
        r is Ok <==> csv_rows(bytes@) is Some,
        match r {
            Ok((out, errs)) => lenient_loaded(*schema, name@, csv_rows(bytes@)->0, out@, errs@),
            Err(e) => e@ == (LoadErrorView::FileUnreadable { file_name: name@ }),
        },
{
    match split_rows(bytes.as_slice()) {
        None => Err(LoadError::FileUnreadable { file_name: name.to_owned() }),
        Some(rows) => Ok(load_table_lenient(schema, name, &rows)),
    }
}

/// Loads one file of the feed under `schema`; an absent file gives an empty table.
pub fn load_file<S: Schema>(schema: &S, name: &str, src: Option<&Vec<u8>>) -> (r: Result<
    Vec<S::Output>,
    LoadError,
>)
    ensures
        ({
            let b = match src {
                Some(v) => Some(v@),
                None => None,
            };
            &&& r is Ok <==> file_loads(*schema, b)
            &&& match r {
                Ok(out) => table_loaded(*schema, b, out@),
                Err(e) => file_failure(*schema, name@, b, e@),
            }
        }),
{
    match src {
        None => Ok(Vec::new()),
        Some(bytes) => parse_file(schema, name, bytes),
    }
}

/// The first supplied file named `name`.
pub fn find_source<'a>(files: &'a Vec<SourceFile>, name: &str) -> (r: Option<&'a Vec<u8>>)
    ensures
        match r {
            Some(v) => source_of(files@, name@) == Some(v@),
            None => source_of(files@, name@) is None,
        },
{
    let key = name.to_owned();
    let mut i: usize = 0;
    while i < files.len()
        invariant
            key@ == name@,
            i <= files.len(),
            forall|j: int| 0 <= j < i ==> (#[trigger] files@[j]).name@ != name@,
        decreases files.len() - i,
    {
        if files[i].name == key {
            proof {
                assert(first_source(files@, name@, i as int));
                let k = choose|k: int| first_source(files@, name@, k);
                if k < i {
                    assert(files@[k].name@ != name@);
                } else if i < k {
                    assert(files@[i as int].name@ != name@);
                }
            }
            return Some(&files[i].contents);
        }
        i = i + 1;
    }
    assert(!exists|k: int| first_source(files@, name@, k));
    None
}

/// A whole feed: one table per file. Tables of optional files that were not
/// supplied are empty.
#[derive(Debug)]
pub struct Feed {
    pub agencies: Vec<Agency>,
    pub attributions: Vec<RawRecord>,
    pub calendar: Vec<RawRecord>,
    pub calendar_dates: Vec<RawRecord>,
    pub fare_attributes: Vec<RawRecord>,
    pub fare_rules: Vec<RawRecord>,
    pub feed_info: Vec<RawRecord>,
    pub frequencies: Vec<RawRecord>,
    pub levels: Vec<RawRecord>,
    pub routes: Vec<Route>,
    pub pathways: Vec<RawRecord>,
    pub shapes: Vec<RawRecord>,
    pub stops: Vec<RawRecord>,
    pub stop_times: Vec<RawRecord>,
    pub transfers: Vec<RawRecord>,
    pub trips: Vec<RawRecord>,
}

/// Whether every file of the feed loads.
pub open spec fn all_files_load(files: Seq<SourceFile>) -> bool {
    &&& file_loads(AgencySchema, source_of(files, "agency.txt"@))
    &&& file_loads(RawSchema { table: TableId::Attributions }, source_of(files, "attributions.txt"@))
    &&& file_loads(RawSchema { table: TableId::Calendar }, source_of(files, "calendar.txt"@))
    &&& file_loads(RawSchema { table: TableId::CalendarDates }, source_of(files, "calendar_dates.txt"@))
    &&& file_loads(RawSchema { table: TableId::FareAttributes }, source_of(files, "fare_attributes.txt"@))
    &&& file_loads(RawSchema { table: TableId::FareRules }, source_of(files, "fare_rules.txt"@))
    &&& file_loads(RawSchema { table: TableId::FeedInfo }, source_of(files, "feed_info.txt"@))
    &&& file_loads(RawSchema { table: TableId::Frequencies }, source_of(files, "frequencies.txt"@))
    &&& file_loads(RawSchema { table: TableId::Levels }, source_of(files, "levels.txt"@))
    &&& file_loads(RouteSchema, source_of(files, "routes.txt"@))
    &&& file_loads(RawSchema { table: TableId::Pathways }, source_of(files, "pathways.txt"@))
    &&& file_loads(RawSchema { table: TableId::Shapes }, source_of(files, "shapes.txt"@))
    &&& file_loads(RawSchema { table: TableId::Stops }, source_of(files, "stops.txt"@))
    &&& file_loads(RawSchema { table: TableId::StopTimes }, source_of(files, "stop_times.txt"@))
    &&& file_loads(RawSchema { table: TableId::Transfers }, source_of(files, "transfers.txt"@))
    &&& file_loads(RawSchema { table: TableId::Trips }, source_of(files, "trips.txt"@))
}

/// Whether every table of `feed` is the one loaded from its file.
pub open spec fn feed_loaded(files: Seq<SourceFile>, feed: Feed) -> bool {
    &&& table_loaded(AgencySchema, source_of(files, "agency.txt"@), feed.agencies@)
    &&& table_loaded(RawSchema { table: TableId::Attributions }, source_of(files, "attributions.txt"@), feed.attributions@)
    &&& table_loaded(RawSchema { table: TableId::Calendar }, source_of(files, "calendar.txt"@), feed.calendar@)
    &&& table_loaded(RawSchema { table: TableId::CalendarDates }, source_of(files, "calendar_dates.txt"@), feed.calendar_dates@)
    &&& table_loaded(RawSchema { table: TableId::FareAttributes }, source_of(files, "fare_attributes.txt"@), feed.fare_attributes@)
    &&& table_loaded(RawSchema { table: TableId::FareRules }, source_of(files, "fare_rules.txt"@), feed.fare_rules@)
    &&& table_loaded(RawSchema { table: TableId::FeedInfo }, source_of(files, "feed_info.txt"@), feed.feed_info@)
    &&& table_loaded(RawSchema { table: TableId::Frequencies }, source_of(files, "frequencies.txt"@), feed.frequencies@)
    &&& table_loaded(RawSchema { table: TableId::Levels }, source_of(files, "levels.txt"@), feed.levels@)
    &&& table_loaded(RouteSchema, source_of(files, "routes.txt"@), feed.routes@)
    &&& table_loaded(RawSchema { table: TableId::Pathways }, source_of(files, "pathways.txt"@), feed.pathways@)
    &&& table_loaded(RawSchema { table: TableId::Shapes }, source_of(files, "shapes.txt"@), feed.shapes@)
    &&& table_loaded(RawSchema { table: TableId::Stops }, source_of(files, "stops.txt"@), feed.stops@)
    &&& table_loaded(RawSchema { table: TableId::StopTimes }, source_of(files, "stop_times.txt"@), feed.stop_times@)
    &&& table_loaded(RawSchema { table: TableId::Transfers }, source_of(files, "transfers.txt"@), feed.transfers@)
    &&& table_loaded(RawSchema { table: TableId::Trips }, source_of(files, "trips.txt"@), feed.trips@)
}

/// Whether `e` is the failure of the first file, in the order of `FILE_NAMES`,
/// that does not load.
pub open spec fn first_file_failure(files: Seq<SourceFile>, e: LoadErrorView) -> bool {
    if !file_loads(AgencySchema, source_of(files, "agency.txt"@)) {
        file_failure(AgencySchema, "agency.txt"@, source_of(files, "agency.txt"@), e)
    } else if !file_loads((RawSchema { table: TableId::Attributions }), source_of(files, "attributions.txt"@)) {
        file_failure((RawSchema { table: TableId::Attributions }), "attributions.txt"@, source_of(files, "attributions.txt"@), e)
    } else if !file_loads((RawSchema { table: TableId::Calendar }), source_of(files, "calendar.txt"@)) {
        file_failure((RawSchema { table: TableId::Calendar }), "calendar.txt"@, source_of(files, "calendar.txt"@), e)
    } else if !file_loads((RawSchema { table: TableId::CalendarDates }), source_of(files, "calendar_dates.txt"@)) {
        file_failure((RawSchema { table: TableId::CalendarDates }), "calendar_dates.txt"@, source_of(files, "calendar_dates.txt"@), e)
    } else if !file_loads((RawSchema { table: TableId::FareAttributes }), source_of(files, "fare_attributes.txt"@)) {
        file_failure((RawSchema { table: TableId::FareAttributes }), "fare_attributes.txt"@, source_of(files, "fare_attributes.txt"@), e)
    } else if !file_loads((RawSchema { table: TableId::FareRules }), source_of(files, "fare_rules.txt"@)) {
        file_failure((RawSchema { table: TableId::FareRules }), "fare_rules.txt"@, source_of(files, "fare_rules.txt"@), e)
    } else if !file_loads((RawSchema { table: TableId::FeedInfo }), source_of(files, "feed_info.txt"@)) {
        file_failure((RawSchema { table: TableId::FeedInfo }), "feed_info.txt"@, source_of(files, "feed_info.txt"@), e)
    } else if !file_loads((RawSchema { table: TableId::Frequencies }), source_of(files, "frequencies.txt"@)) {
        file_failure((RawSchema { table: TableId::Frequencies }), "frequencies.txt"@, source_of(files, "frequencies.txt"@), e)
    } else if !file_loads((RawSchema { table: TableId::Levels }), source_of(files, "levels.txt"@)) {
        file_failure((RawSchema { table: TableId::Levels }), "levels.txt"@, source_of(files, "levels.txt"@), e)
    } else if !file_loads(RouteSchema, source_of(files, "routes.txt"@)) {
        file_failure(RouteSchema, "routes.txt"@, source_of(files, "routes.txt"@), e)
    } else if !file_loads((RawSchema { table: TableId::Pathways }), source_of(files, "pathways.txt"@)) {
        file_failure((RawSchema { table: TableId::Pathways }), "pathways.txt"@, source_of(files, "pathways.txt"@), e)
    } else if !file_loads((RawSchema { table: TableId::Shapes }), source_of(files, "shapes.txt"@)) {
        file_failure((RawSchema { table: TableId::Shapes }), "shapes.txt"@, source_of(files, "shapes.txt"@), e)
    } else if !file_loads((RawSchema { table: TableId::Stops }), source_of(files, "stops.txt"@)) {
        file_failure((RawSchema { table: TableId::Stops }), "stops.txt"@, source_of(files, "stops.txt"@), e)
    } else if !file_loads((RawSchema { table: TableId::StopTimes }), source_of(files, "stop_times.txt"@)) {
        file_failure((RawSchema { table: TableId::StopTimes }), "stop_times.txt"@, source_of(files, "stop_times.txt"@), e)
    } else if !file_loads((RawSchema { table: TableId::Transfers }), source_of(files, "transfers.txt"@)) {
        file_failure((RawSchema { table: TableId::Transfers }), "transfers.txt"@, source_of(files, "transfers.txt"@), e)
    } else if !file_loads((RawSchema { table: TableId::Trips }), source_of(files, "trips.txt"@)) {
        file_failure((RawSchema { table: TableId::Trips }), "trips.txt"@, source_of(files, "trips.txt"@), e)
    } else {
        false
    }
}

/// What loading the feed from `files` may give: every missing mandatory file
/// is reported before anything is decoded; otherwise the load succeeds exactly
/// when every file loads, and then each table comes from its file, or else it
/// reports the first file, in the order of `FILE_NAMES`, that does not load.
pub open spec fn feed_result(files: Seq<SourceFile>, r: Result<Feed, LoadError>) -> bool {
    if missing_mandatory(files).len() > 0 {
        r matches Err(e) && e@ == (LoadErrorView::MissingMandatoryFiles {
            file_names: missing_mandatory(files),
        })
    } else {
        &&& (r is Ok <==> all_files_load(files))
        &&& match r {
            Ok(feed) => feed_loaded(files, feed),
            Err(e) => first_file_failure(files, e@),
        }
    }
}

/// Appends `name` to `out` where no file of that name was supplied.
fn note_if_absent(files: &Vec<SourceFile>, name: &str, out: &mut Vec<String>)
    ensures
        final(out).deep_view() == old(out).deep_view() + absent_name(files@, name@),
{
    let ghost before = out.deep_view();
    if find_source(files, name).is_none() {
        out.push(name.to_owned());
        assert(out.deep_view() =~= before + seq![name@]);
    } else {
        assert(out.deep_view() =~= before + Seq::<Seq<char>>::empty());
    }
}

/// The mandatory files that were not supplied, sorted by name.
pub fn missing_mandatory_files(files: &Vec<SourceFile>) -> (r: Vec<String>)
    ensures
        r.deep_view() == missing_mandatory(files@),
{
    let mut out: Vec<String> = Vec::new();
    assert(out.deep_view() =~= Seq::<Seq<char>>::empty());
    note_if_absent(files, "agency.txt", &mut out);
    note_if_absent(files, "routes.txt", &mut out);
    note_if_absent(files, "stop_times.txt", &mut out);
    note_if_absent(files, "stops.txt", &mut out);
    note_if_absent(files, "trips.txt", &mut out);
    assert(out.deep_view() =~= missing_mandatory(files@));
    out
}

/// Loads a feed from the supplied files. The files agency.txt, routes.txt,
/// stops.txt, stop_times.txt and trips.txt are mandatory; the others may be
/// left out, and then give empty tables.
pub fn load_feed(files: &Vec<SourceFile>) -> (r: Result<Feed, LoadError>)
    ensures
        feed_result(files@, r),
{
    let missing = missing_mandatory_files(files);
    if missing.len() > 0 {
        return Err(LoadError::MissingMandatoryFiles { file_names: missing });
    }
    let agencies = load_file(&AgencySchema, "agency.txt", find_source(files, "agency.txt"))?;
    let attributions = load_file(&RawSchema { table: TableId::Attributions }, "attributions.txt", find_source(files, "attributions.txt"))?;
    let calendar = load_file(&RawSchema { table: TableId::Calendar }, "calendar.txt", find_source(files, "calendar.txt"))?;
    let calendar_dates = load_file(&RawSchema { table: TableId::CalendarDates }, "calendar_dates.txt", find_source(files, "calendar_dates.txt"))?;
    let fare_attributes = load_file(&RawSchema { table: TableId::FareAttributes }, "fare_attributes.txt", find_source(files, "fare_attributes.txt"))?;
    let fare_rules = load_file(&RawSchema { table: TableId::FareRules }, "fare_rules.txt", find_source(files, "fare_rules.txt"))?;
    let feed_info = load_file(&RawSchema { table: TableId::FeedInfo }, "feed_info.txt", find_source(files, "feed_info.txt"))?;
    let frequencies = load_file(&RawSchema { table: TableId::Frequencies }, "frequencies.txt", find_source(files, "frequencies.txt"))?;
    let levels = load_file(&RawSchema { table: TableId::Levels }, "levels.txt", find_source(files, "levels.txt"))?;
    let routes = load_file(&RouteSchema, "routes.txt", find_source(files, "routes.txt"))?;
    let pathways = load_file(&RawSchema { table: TableId::Pathways }, "pathways.txt", find_source(files, "pathways.txt"))?;
    let shapes = load_file(&RawSchema { table: TableId::Shapes }, "shapes.txt", find_source(files, "shapes.txt"))?;
    let stops = load_file(&RawSchema { table: TableId::Stops }, "stops.txt", find_source(files, "stops.txt"))?;
    let stop_times = load_file(&RawSchema { table: TableId::StopTimes }, "stop_times.txt", find_source(files, "stop_times.txt"))?;
    let transfers = load_file(&RawSchema { table: TableId::Transfers }, "transfers.txt", find_source(files, "transfers.txt"))?;
    let trips = load_file(&RawSchema { table: TableId::Trips }, "trips.txt", find_source(files, "trips.txt"))?;
    Ok(Feed {
        agencies,
        attributions,
        calendar,
        calendar_dates,
        fare_attributes,
        fare_rules,
        feed_info,
        frequencies,
        levels,
        routes,
        pathways,
        shapes,
        stops,
        stop_times,
        transfers,
        trips,
    })
}

/// A feed whose five mandatory files are present and decode, and whose optional
/// files are all absent, loads, with an empty table for every optional file.
pub proof fn lemma_mandatory_files_suffice(files: Seq<SourceFile>, r: Result<Feed, LoadError>)
    requires
        feed_result(files, r),
        source_of(files, "agency.txt"@) is Some,
        source_of(files, "routes.txt"@) is Some,
        source_of(files, "stops.txt"@) is Some,
        source_of(files, "stop_times.txt"@) is Some,
        source_of(files, "trips.txt"@) is Some,
        file_loads(AgencySchema, source_of(files, "agency.txt"@)),
        file_loads(RouteSchema, source_of(files, "routes.txt"@)),
        file_loads((RawSchema { table: TableId::Stops }), source_of(files, "stops.txt"@)),
        file_loads((RawSchema { table: TableId::StopTimes }), source_of(files, "stop_times.txt"@)),
        file_loads((RawSchema { table: TableId::Trips }), source_of(files, "trips.txt"@)),
        source_of(files, "attributions.txt"@) is None,
        source_of(files, "calendar.txt"@) is None,
        source_of(files, "calendar_dates.txt"@) is None,
        source_of(files, "fare_attributes.txt"@) is None,
        source_of(files, "fare_rules.txt"@) is None,
        source_of(files, "feed_info.txt"@) is None,
        source_of(files, "frequencies.txt"@) is None,
        source_of(files, "levels.txt"@) is None,
        source_of(files, "pathways.txt"@) is None,
        source_of(files, "shapes.txt"@) is None,
        source_of(files, "transfers.txt"@) is None,
    ensures
        r is Ok,
        missing_mandatory(files).len() == 0,
        r->Ok_0.attributions@.len() == 0,
        r->Ok_0.calendar@.len() == 0,
        r->Ok_0.calendar_dates@.len() == 0,
        r->Ok_0.fare_attributes@.len() == 0,
        r->Ok_0.fare_rules@.len() == 0,
        r->Ok_0.feed_info@.len() == 0,
        r->Ok_0.frequencies@.len() == 0,
        r->Ok_0.levels@.len() == 0,
        r->Ok_0.pathways@.len() == 0,
        r->Ok_0.shapes@.len() == 0,
        r->Ok_0.transfers@.len() == 0,
{
}

/// Whether `e` reports missing mandatory files, `name` among them.
pub open spec fn reports_missing(e: LoadErrorView, name: Seq<char>) -> bool {
    match e {
        LoadErrorView::MissingMandatoryFiles { file_names } => file_names.contains(name),
        _ => false,
    }
}

/// A feed without stops.txt fails as a whole, naming stops.txt among the
/// missing mandatory files, whatever the other files hold.
pub proof fn lemma_missing_stops_fails(files: Seq<SourceFile>, r: Result<Feed, LoadError>)
    requires
        feed_result(files, r),
        source_of(files, "stops.txt"@) is None,
    ensures
        (r matches Err(e) && reports_missing(e@, "stops.txt"@)),
{
    let before = absent_name(files, "agency.txt"@) + absent_name(files, "routes.txt"@) + absent_name(
        files,
        "stop_times.txt"@,
    );
    let m = missing_mandatory(files);
    assert(m == before + seq!["stops.txt"@] + absent_name(files, "trips.txt"@));
    assert(m[before.len() as int] == "stops.txt"@);
}

} // verus!
