use vstd::prelude::*;
use crate::agency::{agency_decoded, agency_error, Agency};
use crate::error::{FieldError, FieldErrorView};
use crate::route::{route_decoded, route_error, Route};
use crate::row::{cell, lookup, missing, missing_view};

verus! {

/// How the rows of one table decode into records.
pub trait Schema {
    type Output;

    /// The first error of the row `v` under header `h`, or `None` where it decodes.
    spec fn row_error(&self, h: Seq<Seq<char>>, v: Seq<Seq<char>>) -> Option<FieldErrorView>;

    /// Whether `o` is the record that the row `v` under header `h` decodes to.
    spec fn decoded(&self, o: Self::Output, h: Seq<Seq<char>>, v: Seq<Seq<char>>) -> bool;

    /// Decodes one row given the table's header.
    fn decode_row(&self, header: &Vec<String>, values: &Vec<String>) -> (r: Result<Self::Output, FieldError>)
        ensures
            match r {
                Ok(o) => self.row_error(header.deep_view(), values.deep_view()) is None
                    && self.decoded(o, header.deep_view(), values.deep_view()),
                Err(e) => self.row_error(header.deep_view(), values.deep_view()) == Some(e@),
            };
}

/// The schema of `agency.txt`.
pub struct AgencySchema;

impl Schema for AgencySchema {
    type Output = Agency;

    open spec fn row_error(&self, h: Seq<Seq<char>>, v: Seq<Seq<char>>) -> Option<FieldErrorView> {
        agency_error(h, v)
    }

    open spec fn decoded(&self, o: Agency, h: Seq<Seq<char>>, v: Seq<Seq<char>>) -> bool {
        agency_decoded(o, h, v)
    }

    fn decode_row(&self, header: &Vec<String>, values: &Vec<String>) -> (r: Result<Agency, FieldError>) {
        Agency::from_row(header, values)
    }
}

/// The schema of `routes.txt`.
pub struct RouteSchema;

impl Schema for RouteSchema {
    type Output = Route;

    open spec fn row_error(&self, h: Seq<Seq<char>>, v: Seq<Seq<char>>) -> Option<FieldErrorView> {
        route_error(h, v)
    }

    open spec fn decoded(&self, o: Route, h: Seq<Seq<char>>, v: Seq<Seq<char>>) -> bool {
        route_decoded(o, h, v)
    }

    fn decode_row(&self, header: &Vec<String>, values: &Vec<String>) -> (r: Result<Route, FieldError>) {
        Route::from_row(header, values)
    }
}

/// The tables whose records are kept as text, checked for their required columns.
#[derive(Debug, Clone, Copy, PartialEq, Eq, Structural)]
pub enum TableId {
    Attributions,
    Calendar,
    CalendarDates,
    FareAttributes,
    FareRules,
    FeedInfo,
    Frequencies,
    Levels,
    Pathways,
    Shapes,
    Stops,
    StopTimes,
    Transfers,
    Trips,
}

/// The file that holds a table.
pub open spec fn file_name_spec(t: TableId) -> &'static str {
    match t {
        TableId::Attributions => "attributions.txt",
        TableId::Calendar => "calendar.txt",
        TableId::CalendarDates => "calendar_dates.txt",
        TableId::FareAttributes => "fare_attributes.txt",
        TableId::FareRules => "fare_rules.txt",
        TableId::FeedInfo => "feed_info.txt",
        TableId::Frequencies => "frequencies.txt",
        TableId::Levels => "levels.txt",
        TableId::Pathways => "pathways.txt",
        TableId::Shapes => "shapes.txt",
        TableId::Stops => "stops.txt",
        TableId::StopTimes => "stop_times.txt",
        TableId::Transfers => "transfers.txt",
        TableId::Trips => "trips.txt",
    }
}

/// The name of a record of a table.
pub open spec fn record_type_spec(t: TableId) -> &'static str {
    match t {
        TableId::Attributions => "Attribution",
        TableId::Calendar => "Calendar",
        TableId::CalendarDates => "CalendarDate",
        TableId::FareAttributes => "FareAttribute",
        TableId::FareRules => "FareRule",
        TableId::FeedInfo => "FeedInfo",
        TableId::Frequencies => "Frequency",
        TableId::Levels => "Level",
        TableId::Pathways => "Pathway",
        TableId::Shapes => "Shape",
        TableId::Stops => "Stop",
        TableId::StopTimes => "StopTime",
        TableId::Transfers => "Transfer",
        TableId::Trips => "Trip",
    }
}

/// The columns that every row of a table must have.
pub open spec fn required_columns(t: TableId) -> Seq<&'static str> {
    match t {
        TableId::Attributions => seq!["organization_name"],
        TableId::Calendar => seq!["service_id", "monday", "tuesday", "wednesday", "thursday", "friday", "saturday", "sunday", "start_date", "end_date"],
        TableId::CalendarDates => seq!["service_id", "date", "exception_type"],
        TableId::FareAttributes => seq!["fare_id", "price", "currency_type", "payment_method", "transfers"],
        TableId::FareRules => seq!["fare_id"],
        TableId::FeedInfo => seq!["feed_publisher_name", "feed_publisher_url", "feed_lang"],
        TableId::Frequencies => seq!["trip_id", "start_time", "end_time", "headway_secs"],
        TableId::Levels => seq!["level_id", "level_index"],
        TableId::Pathways => seq!["pathway_id", "from_stop_id", "to_stop_id", "pathway_mode", "is_bidirectional"],
        TableId::Shapes => seq!["shape_id", "shape_pt_lat", "shape_pt_lon", "shape_pt_sequence"],
        TableId::Stops => seq!["stop_id"],
        TableId::StopTimes => seq!["trip_id", "stop_id", "stop_sequence"],
        TableId::Transfers => seq!["transfer_type"],
        TableId::Trips => seq!["route_id", "service_id", "trip_id"],
    }
}

impl TableId {
    /// The file that holds the table.
    pub fn file_name(&self) -> (r: &'static str)
        ensures
            r == file_name_spec(*self),
    {
        match self {
            TableId::Attributions => "attributions.txt",
            TableId::Calendar => "calendar.txt",
            TableId::CalendarDates => "calendar_dates.txt",
            TableId::FareAttributes => "fare_attributes.txt",
            TableId::FareRules => "fare_rules.txt",
            TableId::FeedInfo => "feed_info.txt",
            TableId::Frequencies => "frequencies.txt",
            TableId::Levels => "levels.txt",
            TableId::Pathways => "pathways.txt",
            TableId::Shapes => "shapes.txt",
            TableId::Stops => "stops.txt",
            TableId::StopTimes => "stop_times.txt",
            TableId::Transfers => "transfers.txt",
            TableId::Trips => "trips.txt",
        }
    }

    /// The name of a record of the table.
    pub fn record_type(&self) -> (r: &'static str)
        ensures
            r == record_type_spec(*self),
    {
        match self {
            TableId::Attributions => "Attribution",
            TableId::Calendar => "Calendar",
            TableId::CalendarDates => "CalendarDate",
            TableId::FareAttributes => "FareAttribute",
            TableId::FareRules => "FareRule",
            TableId::FeedInfo => "FeedInfo",
            TableId::Frequencies => "Frequency",
            TableId::Levels => "Level",
            TableId::Pathways => "Pathway",
            TableId::Shapes => "Shape",
            TableId::Stops => "Stop",
            TableId::StopTimes => "StopTime",
            TableId::Transfers => "Transfer",
            TableId::Trips => "Trip",
        }
    }

    /// The columns that every row of the table must have.
    pub fn required_columns(&self) -> (r: Vec<&'static str>)
        ensures
            r@ == required_columns(*self),
    {
        let r = match self {
            TableId::Attributions => vec!["organization_name"],
            TableId::Calendar => vec!["service_id", "monday", "tuesday", "wednesday", "thursday", "friday", "saturday", "sunday", "start_date", "end_date"],
            TableId::CalendarDates => vec!["service_id", "date", "exception_type"],
            TableId::FareAttributes => vec!["fare_id", "price", "currency_type", "payment_method", "transfers"],
            TableId::FareRules => vec!["fare_id"],
            TableId::FeedInfo => vec!["feed_publisher_name", "feed_publisher_url", "feed_lang"],
            TableId::Frequencies => vec!["trip_id", "start_time", "end_time", "headway_secs"],
            TableId::Levels => vec!["level_id", "level_index"],
            TableId::Pathways => vec!["pathway_id", "from_stop_id", "to_stop_id", "pathway_mode", "is_bidirectional"],
            TableId::Shapes => vec!["shape_id", "shape_pt_lat", "shape_pt_lon", "shape_pt_sequence"],
            TableId::Stops => vec!["stop_id"],
            TableId::StopTimes => vec!["trip_id", "stop_id", "stop_sequence"],
            TableId::Transfers => vec!["transfer_type"],
            TableId::Trips => vec!["route_id", "service_id", "trip_id"],
        };
        proof {
            assert(r@ =~= required_columns(*self));
        }
        r
    }
}

/// One row of a table kept as text: its header and its values.
#[derive(Debug)]
pub struct RawRecord {
    pub columns: Vec<String>,
    pub values: Vec<String>,
}

impl RawRecord {
    /// The value of `column` in this record, if the record has one.
    pub fn get(&self, column: &str) -> (r: Option<&String>)
        ensures
            match r {
                Some(x) => cell(self.columns.deep_view(), self.values.deep_view(), column@) == Some(x@),
                None => cell(self.columns.deep_view(), self.values.deep_view(), column@) is None,
            },
    {
        lookup(&self.columns, &self.values, column)
    }
}

/// Whether `i` is the first required column of `t` that the row `v` under `h` lacks.
pub open spec fn first_absent(t: TableId, h: Seq<Seq<char>>, v: Seq<Seq<char>>, i: int) -> bool {
    &&& 0 <= i < required_columns(t).len()
    &&& cell(h, v, required_columns(t)[i]@) is None
    &&& forall|j: int|
        0 <= j < i ==> #[trigger] cell(h, v, required_columns(t)[j]@) is Some
}

/// The first error of a row of the table `t`: a required column that it lacks.
pub open spec fn raw_error(t: TableId, h: Seq<Seq<char>>, v: Seq<Seq<char>>) -> Option<FieldErrorView> {
    if exists|i: int| first_absent(t, h, v, i) {
        let i = choose|i: int| first_absent(t, h, v, i);
        Some(missing_view(record_type_spec(t)@, required_columns(t)[i]@))
    } else {
        None
    }
}

/// A copy of a list of strings.
pub fn copy_strings(v: &Vec<String>) -> (r: Vec<String>)
    ensures
        r.deep_view() == v.deep_view(),
{
    let mut out: Vec<String> = Vec::new();
    let mut i: usize = 0;
    while i < v.len()
        invariant
            i <= v.len(),
            out@.len() == i,
            forall|j: int| 0 <= j < i ==> #[trigger] out@[j]@ == v@[j]@,
        decreases v.len() - i,
    {
        out.push(v[i].clone());
        i = i + 1;
    }
    assert(out.deep_view() =~= v.deep_view());
    out
}

/// The schema of a table kept as text.
pub struct RawSchema {
    pub table: TableId,
}

impl Schema for RawSchema {
    type Output = RawRecord;

    open spec fn row_error(&self, h: Seq<Seq<char>>, v: Seq<Seq<char>>) -> Option<FieldErrorView> {
        raw_error(self.table, h, v)
    }

    open spec fn decoded(&self, o: RawRecord, h: Seq<Seq<char>>, v: Seq<Seq<char>>) -> bool {
        o.columns.deep_view() == h && o.values.deep_view() == v
    }

    fn decode_row(&self, header: &Vec<String>, values: &Vec<String>) -> (r: Result<RawRecord, FieldError>) {
        let ghost (h, v) = (header.deep_view(), values.deep_view());
        let t = self.table;
        let columns = t.required_columns();
        let mut i: usize = 0;
        while i < columns.len()
            invariant
                columns@ == required_columns(t),
                t == self.table,
                i <= columns.len(),
                h == header.deep_view(),
                v == values.deep_view(),
                forall|j: int| 0 <= j < i ==> #[trigger] cell(h, v, required_columns(t)[j]@) is Some,
            decreases columns.len() - i,
        {
            if lookup(header, values, columns[i]).is_none() {
                proof {
                    assert(first_absent(t, h, v, i as int));
                    let k = choose|k: int| first_absent(t, h, v, k);
                    if k < i {
                        assert(cell(h, v, required_columns(t)[k]@) is Some);
                    } else if i < k {
                        assert(cell(h, v, required_columns(t)[i as int]@) is Some);
                    }
                }
                let e = missing(t.record_type(), columns[i]);
                assert(raw_error(t, h, v) == Some(e@));
                return Err(e);
            }
            i = i + 1;
        }
        assert(!exists|k: int| first_absent(t, h, v, k));
        Ok(RawRecord { columns: copy_strings(header), values: copy_strings(values) })
    }
}

} // verus!
