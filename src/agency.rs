use vstd::prelude::*;
use crate::error::{DecodeReason, FieldError, FieldErrorView};
use crate::outside::{is_iana_zone, language_tag_of, parse_language_tag, parse_zone};
use crate::row::{cell, filled, invalid, invalid_view, missing, missing_view, optional_text, required, lookup_filled};

verus! {

/// A transit agency, one row of `agency.txt`.
#[derive(Debug)]
pub struct Agency {
    pub id: String,
    pub name: String,
    pub url: String,
    /// The agency's time zone, by its IANA database name.
    pub timezone: String,
    /// The agency's language, as a BCP-47 tag in its normalised case.
    pub lang: Option<String>,
    pub phone: Option<String>,
    pub fare_url: Option<String>,
    pub email: Option<String>,
}

/// The first field error of an agency row, in field order, if any.
pub open spec fn agency_error(h: Seq<Seq<char>>, v: Seq<Seq<char>>) -> Option<FieldErrorView> {
    if cell(h, v, "agency_id"@) is None {
        Some(missing_view("Agency"@, "id"@))
    } else if cell(h, v, "agency_name"@) is None {
        Some(missing_view("Agency"@, "name"@))
    } else if cell(h, v, "agency_url"@) is None {
        Some(missing_view("Agency"@, "url"@))
    } else if cell(h, v, "agency_timezone"@) is None {
        Some(missing_view("Agency"@, "timezone"@))
    } else if !is_iana_zone(cell(h, v, "agency_timezone"@)->0) {
        Some(
            invalid_view(
                "Agency"@,
                "timezone"@,
                cell(h, v, "agency_timezone"@)->0,
                DecodeReason::UnknownTimezone,
            ),
        )
    } else if filled(h, v, "agency_lang"@) is Some && language_tag_of(
        filled(h, v, "agency_lang"@)->0,
    ) is None {
        Some(
            invalid_view(
                "Agency"@,
                "lang"@,
                filled(h, v, "agency_lang"@)->0,
                DecodeReason::MalformedLanguageTag,
            ),
        )
    } else {
        None
    }
}

/// Whether `a` holds the values of the agency row `v` under header `h`.
pub open spec fn agency_decoded(a: Agency, h: Seq<Seq<char>>, v: Seq<Seq<char>>) -> bool {
    &&& cell(h, v, "agency_id"@) == Some(a.id@)
    &&& cell(h, v, "agency_name"@) == Some(a.name@)
    &&& cell(h, v, "agency_url"@) == Some(a.url@)
    &&& cell(h, v, "agency_timezone"@) == Some(a.timezone@)
    &&& a.lang.deep_view() == match filled(h, v, "agency_lang"@) {
        Some(t) => language_tag_of(t),
        None => None,
    }
    &&& a.phone.deep_view() == filled(h, v, "agency_phone"@)
    &&& a.fare_url.deep_view() == filled(h, v, "agency_fare_url"@)
    &&& a.email.deep_view() == filled(h, v, "agency_email"@)
}

/// An agency row with its id, name and url fails without a time-zone column
/// for want of a time zone, and with a zone name that the database does not
/// know for that name.
pub proof fn lemma_agency_needs_a_known_zone(h: Seq<Seq<char>>, v: Seq<Seq<char>>)
    requires
        cell(h, v, "agency_id"@) is Some,
        cell(h, v, "agency_name"@) is Some,
        cell(h, v, "agency_url"@) is Some,
    ensures
        cell(h, v, "agency_timezone"@) is None ==> agency_error(h, v) == Some(
            missing_view("Agency"@, "timezone"@),
        ),
        forall|z: Seq<char>|
            cell(h, v, "agency_timezone"@) == Some(z) && !is_iana_zone(z) ==> agency_error(h, v)
                == Some(invalid_view("Agency"@, "timezone"@, z, DecodeReason::UnknownTimezone)),
{
}

impl Agency {
    /// Decodes one row of `agency.txt` given the file's header.
    pub fn from_row(header: &Vec<String>, values: &Vec<String>) -> (r: Result<Agency, FieldError>)
        ensures
            match r {
                Ok(a) => agency_error(header.deep_view(), values.deep_view()) is None
                    && agency_decoded(a, header.deep_view(), values.deep_view()),
                Err(e) => agency_error(header.deep_view(), values.deep_view()) == Some(e@),
            },
    {
        let id = required(header, values, "Agency", "id", "agency_id")?.clone();
        let name = required(header, values, "Agency", "name", "agency_name")?.clone();
        let url = required(header, values, "Agency", "url", "agency_url")?.clone();
        let raw_zone = required(header, values, "Agency", "timezone", "agency_timezone")?;
        let timezone = match parse_zone(raw_zone.as_str()) {
            Some(z) => z,
            None => {
                return Err(invalid("Agency", "timezone", raw_zone, DecodeReason::UnknownTimezone));
            },
        };
        let lang = match lookup_filled(header, values, "agency_lang") {
            Some(raw) => match parse_language_tag(raw.as_str()) {
                Some(tag) => Some(tag),
                None => {
                    return Err(invalid("Agency", "lang", raw, DecodeReason::MalformedLanguageTag));
                },
            },
            None => None,
        };
        let phone = optional_text(header, values, "agency_phone");
        let fare_url = optional_text(header, values, "agency_fare_url");
        let email = optional_text(header, values, "agency_email");
        Ok(Agency { id, name, url, timezone, lang, phone, fare_url, email })
    }
}

} // verus!
