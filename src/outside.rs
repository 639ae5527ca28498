use vstd::prelude::*;
use chrono_tz::Tz;
use language_tags::LanguageTag;

verus! {

/// Whether `s` is, letter for letter, the name of a zone in chrono-tz's copy of
/// the IANA database.
pub uninterp spec fn is_iana_zone(s: Seq<char>) -> bool;

/// The text of the BCP-47 language tag `s` as language-tags writes it back
/// (case normalised), or `None` where `s` is not well formed.
pub uninterp spec fn language_tag_of(s: Seq<char>) -> Option<Seq<char>>;

/// The rows of fields that the csv crate reads from `b` (the first row being
/// the header), or `None` where it reports an error.
pub uninterp spec fn csv_rows(b: Seq<u8>) -> Option<Seq<Seq<Seq<char>>>>;

/// Relies on chrono-tz's `FromStr for Tz`, an exact-name lookup in the zone
/// table, and on `Tz::name`, which gives back the name the zone is listed under.
#[verifier::external_body]
pub(crate) fn parse_zone(s: &str) -> (r: Option<String>)
    ensures
        r is Some <==> is_iana_zone(s@),
        r matches Some(n) ==> n@ == s@,
{
    s.parse::<Tz>().ok().map(|z| z.name().to_string())
}

/// Relies on `language_tags::LanguageTag::parse`, which succeeds exactly on
/// well-formed tags, and on `LanguageTag::into_string` for the tag's text.
#[verifier::external_body]
pub(crate) fn parse_language_tag(s: &str) -> (r: Option<String>)
    ensures
        r.deep_view() == language_tag_of(s@),
{
    LanguageTag::parse(s).ok().map(|t| t.into_string())
}

/// Relies on the csv crate's reader (default dialect, no header handling, rows
/// of equal length): splits `b` into rows of unquoted fields.
#[verifier::external_body]
pub(crate) fn split_rows(b: &[u8]) -> (r: Option<Vec<Vec<String>>>)
    ensures
        match r {
            Some(rows) => csv_rows(b@) == Some(rows.deep_view()),
            None => csv_rows(b@) is None,
        },
{
    let mut reader = csv::ReaderBuilder::new().has_headers(false).from_reader(b);
    let mut rows: Vec<Vec<String>> = Vec::new();
    for record in reader.records() {
        let record = record.ok()?;
        rows.push(record.iter().map(|f| f.to_string()).collect());
    }
    Some(rows)
}

} // verus!
