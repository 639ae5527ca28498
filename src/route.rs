use vstd::prelude::*;
use crate::codes::{code_reason, decimal_value, decode_code, is_u64_text, parse_u64, CodedEnum, ContinuousStopping, RouteKind};
use crate::color::{color_decoding, Color};
use crate::error::{DecodeReason, FieldError, FieldErrorView};
use crate::row::{cell, filled, invalid, invalid_view, lookup, lookup_filled, missing, missing_view, optional_text, required};

verus! {

/// A route, one row of `routes.txt`.
#[derive(Debug)]
pub struct Route {
    pub id: String,
    pub agency_id: String,
    /// Short name of the route (e.g. "32", "100X"); empty when not given.
    pub short_name: String,
    /// Full name of the route; empty when not given.
    pub long_name: String,
    pub desc: Option<String>,
    pub kind: RouteKind,
    pub url: Option<String>,
    pub color: Option<Color>,
    pub text_color: Option<Color>,
    pub sort_order: Option<usize>,
    pub continuous_pickup: Option<ContinuousStopping>,
    pub continuous_drop_off: Option<ContinuousStopping>,
}

/// The text of a column that may be left out, empty where it is.
pub open spec fn text_or_empty(c: Option<Seq<char>>) -> Seq<char> {
    match c {
        Some(x) => x,
        None => Seq::empty(),
    }
}

/// Why an optional color column is refused, if it is.
pub open spec fn color_reason(c: Option<Seq<char>>) -> Option<DecodeReason> {
    match c {
        Some(s) => match color_decoding(s) {
            Ok(_) => None,
            Err(e) => Some(e),
        },
        None => None,
    }
}

/// The decoded value of an optional color column that is accepted.
pub open spec fn color_value(c: Option<Seq<char>>) -> Option<Color> {
    match c {
        Some(s) => Some(color_decoding(s)->Ok_0),
        None => None,
    }
}

/// Whether `s` writes a non-negative integer that fits a `usize`.
pub open spec fn is_usize_text(s: Seq<char>) -> bool {
    is_u64_text(s) && decimal_value(s) <= usize::MAX
}

/// Why an optional coded column is refused, if it is.
pub open spec fn optional_code_reason<E: CodedEnum>(c: Option<Seq<char>>) -> Option<DecodeReason> {
    match c {
        Some(s) => code_reason::<E>(s),
        None => None,
    }
}

/// Whether `o` is the decoded value of an accepted optional coded column.
pub open spec fn optional_code_value<E: CodedEnum>(c: Option<Seq<char>>, o: Option<E>) -> bool {
    match c {
        Some(s) => o matches Some(k) && k.code_of() == decimal_value(s),
        None => o is None,
    }
}

/// The first field of a route row, in field order, that does not decode.
pub open spec fn route_field_error(h: Seq<Seq<char>>, v: Seq<Seq<char>>) -> Option<FieldErrorView> {
    let kind = cell(h, v, "route_type"@);
    let sort = filled(h, v, "route_sort_order"@);
    if cell(h, v, "route_id"@) is None {
        Some(missing_view("Route"@, "id"@))
    } else if cell(h, v, "agency_id"@) is None {
        Some(missing_view("Route"@, "agency_id"@))
    } else if kind is None {
        Some(missing_view("Route"@, "kind"@))
    } else if code_reason::<RouteKind>(kind->0) is Some {
        Some(invalid_view("Route"@, "kind"@, kind->0, code_reason::<RouteKind>(kind->0)->0))
    } else if color_reason(filled(h, v, "route_color"@)) is Some {
        Some(
            invalid_view(
                "Route"@,
                "color"@,
                filled(h, v, "route_color"@)->0,
                color_reason(filled(h, v, "route_color"@))->0,
            ),
        )
    } else if color_reason(filled(h, v, "route_text_color"@)) is Some {
        Some(
            invalid_view(
                "Route"@,
                "text_color"@,
                filled(h, v, "route_text_color"@)->0,
                color_reason(filled(h, v, "route_text_color"@))->0,
            ),
        )
    } else if sort is Some && !is_usize_text(sort->0) {
        Some(invalid_view("Route"@, "sort_order"@, sort->0, DecodeReason::NotAnInteger))
    } else if optional_code_reason::<ContinuousStopping>(filled(h, v, "continuous_pickup"@)) is Some {
        Some(
            invalid_view(
                "Route"@,
                "continuous_pickup"@,
                filled(h, v, "continuous_pickup"@)->0,
                optional_code_reason::<ContinuousStopping>(filled(h, v, "continuous_pickup"@))->0,
            ),
        )
    } else if optional_code_reason::<ContinuousStopping>(filled(h, v, "continuous_drop_off"@)) is Some {
        Some(
            invalid_view(
                "Route"@,
                "continuous_drop_off"@,
                filled(h, v, "continuous_drop_off"@)->0,
                optional_code_reason::<ContinuousStopping>(filled(h, v, "continuous_drop_off"@))->0,
            ),
        )
    } else {
        None
    }
}

/// Whether a route row names the route: a short or a long name that is not empty.
pub open spec fn route_named(h: Seq<Seq<char>>, v: Seq<Seq<char>>) -> bool {
    text_or_empty(cell(h, v, "route_short_name"@)).len() > 0 || text_or_empty(
        cell(h, v, "route_long_name"@),
    ).len() > 0
}

/// The first error of a route row: the first field that does not decode, in
/// field order, or else a route that has neither a short nor a long name.
pub open spec fn route_error(h: Seq<Seq<char>>, v: Seq<Seq<char>>) -> Option<FieldErrorView> {
    match route_field_error(h, v) {
        Some(e) => Some(e),
        None => if route_named(h, v) {
            None
        } else {
            Some(missing_view("Route"@, "short_name"@))
        },
    }
}

/// A route whose fields all decode is accepted exactly when it has a short or a
/// long name; with both names empty it fails for want of a short name.
pub proof fn lemma_route_needs_a_name(h: Seq<Seq<char>>, v: Seq<Seq<char>>)
    requires
        route_field_error(h, v) is None,
    ensures
        route_error(h, v) is None <==> route_named(h, v),
        !route_named(h, v) ==> route_error(h, v) == Some(missing_view("Route"@, "short_name"@)),
{
}

/// Whether `route` holds the values of the route row `v` under header `h`.
pub open spec fn route_decoded(route: Route, h: Seq<Seq<char>>, v: Seq<Seq<char>>) -> bool {
    &&& cell(h, v, "route_id"@) == Some(route.id@)
    &&& cell(h, v, "agency_id"@) == Some(route.agency_id@)
    &&& route.short_name@ == text_or_empty(cell(h, v, "route_short_name"@))
    &&& route.long_name@ == text_or_empty(cell(h, v, "route_long_name"@))
    &&& route.desc.deep_view() == filled(h, v, "route_desc"@)
    &&& route.kind.code_of() == decimal_value(cell(h, v, "route_type"@)->0)
    &&& route.url.deep_view() == filled(h, v, "route_url"@)
    &&& route.color == color_value(filled(h, v, "route_color"@))
    &&& route.text_color == color_value(filled(h, v, "route_text_color"@))
    &&& (route.sort_order matches Some(n) ==> n == decimal_value(
        filled(h, v, "route_sort_order"@)->0,
    ))
    &&& (route.sort_order is None <==> filled(h, v, "route_sort_order"@) is None)
    &&& optional_code_value(filled(h, v, "continuous_pickup"@), route.continuous_pickup)
    &&& optional_code_value(filled(h, v, "continuous_drop_off"@), route.continuous_drop_off)
}

fn optional_color(
    header: &Vec<String>,
    values: &Vec<String>,
    field: &str,
    column: &str,
) -> (r: Result<Option<Color>, FieldError>)
    ensures
        ({
            let c = filled(header.deep_view(), values.deep_view(), column@);
            match r {
                Ok(o) => color_reason(c) is None && o == color_value(c),
                Err(e) => color_reason(c) is Some && e@ == invalid_view(
                    "Route"@,
                    field@,
                    c->0,
                    color_reason(c)->0,
                ),
            }
        }),
{
    match lookup_filled(header, values, column) {
        Some(raw) => match Color::from_hex(raw.as_str()) {
            Ok(c) => Ok(Some(c)),
            Err(reason) => Err(invalid("Route", field, raw, reason)),
        },
        None => Ok(None),
    }
}

fn optional_code<E: CodedEnum>(
    header: &Vec<String>,
    values: &Vec<String>,
    field: &str,
    column: &str,
) -> (r: Result<Option<E>, FieldError>)
    ensures
        ({
            let c = filled(header.deep_view(), values.deep_view(), column@);
            match r {
                Ok(o) => optional_code_reason::<E>(c) is None && optional_code_value::<E>(c, o),
                Err(e) => optional_code_reason::<E>(c) is Some && e@ == invalid_view(
                    "Route"@,
                    field@,
                    c->0,
                    optional_code_reason::<E>(c)->0,
                ),
            }
        }),
{
    match lookup_filled(header, values, column) {
        Some(raw) => match decode_code::<E>(raw.as_str()) {
            Ok(k) => Ok(Some(k)),
            Err(reason) => Err(invalid("Route", field, raw, reason)),
        },
        None => Ok(None),
    }
}

fn text_or_new(header: &Vec<String>, values: &Vec<String>, column: &str) -> (r: String)
    ensures
        r@ == text_or_empty(cell(header.deep_view(), values.deep_view(), column@)),
{
    match lookup(header, values, column) {
        Some(x) => x.clone(),
        None => String::new(),
    }
}

impl Route {
    /// Decodes one row of `routes.txt` given the file's header.
    pub fn from_row(header: &Vec<String>, values: &Vec<String>) -> (r: Result<Route, FieldError>)
        ensures
            match r {
                Ok(route) => route_error(header.deep_view(), values.deep_view()) is None
                    && route_decoded(route, header.deep_view(), values.deep_view()),
                Err(e) => route_error(header.deep_view(), values.deep_view()) == Some(e@),
            },
    {
        let id = required(header, values, "Route", "id", "route_id")?.clone();
        let agency_id = required(header, values, "Route", "agency_id", "agency_id")?.clone();
        let short_name = text_or_new(header, values, "route_short_name");
        let long_name = text_or_new(header, values, "route_long_name");
        let desc = optional_text(header, values, "route_desc");
        let raw_kind = required(header, values, "Route", "kind", "route_type")?;
        let kind = match decode_code::<RouteKind>(raw_kind.as_str()) {
            Ok(k) => k,
            Err(reason) => {
                return Err(invalid("Route", "kind", raw_kind, reason));
            },
        };
        let url = optional_text(header, values, "route_url");
        let color = optional_color(header, values, "color", "route_color")?;
        let text_color = optional_color(header, values, "text_color", "route_text_color")?;
        let sort_order = match lookup_filled(header, values, "route_sort_order") {
            Some(raw) => match parse_u64(raw.as_str()) {
                Some(n) if n <= usize::MAX as u64 => Some(n as usize),
                _ => {
                    return Err(invalid("Route", "sort_order", raw, DecodeReason::NotAnInteger));
                },
            },
            None => None,
        };
        let continuous_pickup = optional_code::<ContinuousStopping>(
            header,
            values,
            "continuous_pickup",
            "continuous_pickup",
        )?;
        let continuous_drop_off = optional_code::<ContinuousStopping>(
            header,
            values,
            "continuous_drop_off",
            "continuous_drop_off",
        )?;
        if short_name.as_str().is_empty() && long_name.as_str().is_empty() {
            return Err(missing("Route", "short_name"));
        }
        Ok(
            Route {
                id,
                agency_id,
                short_name,
                long_name,
                desc,
                kind,
                url,
                color,
                text_color,
                sort_order,
                continuous_pickup,
                continuous_drop_off,
            },
        )
    }
}

} // verus!
