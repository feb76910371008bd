//! The query strings of the four operations.

use crate::encoding::form_encode;
use crate::encoding::form_encoded;
use crate::encoding::pair_texts;
use crate::encoding::percent_encode;
use crate::encoding::percent_encoded;
use crate::model::StructuredSearch;
use crate::text::decimal;
use crate::text::decimal_text;
use crate::text::join_with;
use crate::text::joined_with;
use crate::text::strip_blanks;
use crate::text::texts;
use crate::text::without_blanks;
use vstd::prelude::*;
use vstd::string::StringExecFns;

verus! {

/// The parameters that ask for JSON with address details and extra tags.
pub const DETAILS: &'static str = "format=json&addressdetails=1&extratags=1";

/// The parameters that ask for JSON with address details and extra tags.
pub open spec fn detail_text() -> Seq<char> {
    DETAILS@
}

/// The query of a status check.
pub open spec fn status_query_text() -> Seq<char> {
    "format=json"@
}

/// The query of a free-text search for `query`.
pub open spec fn search_query_text(query: Seq<char>) -> Seq<char> {
    "q="@ + percent_encoded(query) + "&"@ + detail_text()
}

/// One parameter of a structured search: its name and its value where the part is asked
/// for, nothing where it is not.
pub open spec fn part(name: Seq<char>, value: Option<String>) -> Seq<(Seq<char>, Seq<char>)> {
    match value {
        Some(v) => seq![(name, v@)],
        None => Seq::empty(),
    }
}

/// The parameters of a structured search: the parts asked for, in the order amenity,
/// street, city, county, state, country, postal code.
pub open spec fn parts(search: StructuredSearch) -> Seq<(Seq<char>, Seq<char>)> {
    part("amenity"@, search.amenity) + part("street"@, search.street) + part(
        "city"@,
        search.city,
    ) + part("county"@, search.county) + part("state"@, search.state) + part(
        "country"@,
        search.country,
    ) + part("postalcode"@, search.postalcode)
}

/// The query of a structured search whose parts are written as `fields`: the fields follow
/// the fixed parameters, and nothing follows where there is no field.
pub open spec fn structured_query_text(fields: Seq<char>) -> Seq<char> {
    if fields.len() == 0 {
        detail_text()
    } else {
        detail_text() + "&"@ + fields
    }
}

/// The query of a reverse lookup: the coordinates as given but for their blanks, and the
/// zoom level where there is one.
pub open spec fn reverse_query_text(
    latitude: Seq<char>,
    longitude: Seq<char>,
    zoom: Option<u8>,
) -> Seq<char> {
    "lat="@ + without_blanks(latitude) + "&lon="@ + without_blanks(longitude) + "&"@
        + detail_text() + match zoom {
        Some(level) => "&zoom="@ + decimal_text(level as nat),
        None => Seq::empty(),
    }
}

/// The query of a lookup of `ids`: the ids as given, with a comma between each two.
pub open spec fn lookup_query_text(ids: Seq<Seq<char>>) -> Seq<char> {
    "osm_ids="@ + joined_with(ids, ","@) + "&"@ + detail_text()
}

/// Writes the query of a status check.
pub fn status_query() -> (query: String)
    ensures
        query@ == status_query_text(),
{
    String::from_str("format=json")
}

/// Writes the query of a free-text search: the text searched for, percent-encoded, and the
/// fixed parameters.
pub fn search_query(query: &str) -> (text: String)
    ensures
        text@ == search_query_text(query@),
{
    let mut out = String::from_str("q=");
    let encoded = percent_encode(query);
    out.append(encoded.as_str());
    out.append("&");
    out.append(DETAILS);
    out
}

fn push_part<'a>(pairs: &mut Vec<(&'a str, &'a str)>, name: &'a str, value: &'a Option<String>)
    ensures
        pair_texts(final(pairs)@) == pair_texts(old(pairs)@) + part(name@, *value),
{
    match value {
        Some(v) => {
            pairs.push((name, v.as_str()));
        },
        None => {},
    }
}

/// The parameters that a structured search sends: one name and value for each part that is
/// asked for, and none for a part that is not.
pub fn parameters<'a>(search: &'a StructuredSearch) -> (pairs: Vec<(&'a str, &'a str)>)
    ensures
        pair_texts(pairs@) == parts(*search),
{
    let mut pairs: Vec<(&'a str, &'a str)> = Vec::new();
    push_part(&mut pairs, "amenity", &search.amenity);
    push_part(&mut pairs, "street", &search.street);
    push_part(&mut pairs, "city", &search.city);
    push_part(&mut pairs, "county", &search.county);
    push_part(&mut pairs, "state", &search.state);
    push_part(&mut pairs, "country", &search.country);
    push_part(&mut pairs, "postalcode", &search.postalcode);
    pairs
}

/// Writes the query of a structured search whose parts are written as `fields`.
pub fn structured_query_from(fields: &str) -> (query: String)
    ensures
        query@ == structured_query_text(fields@),
{
    let mut out = String::from_str(DETAILS);
    if fields.as_bytes().len() > 0 {
        out.append("&");
        out.append(fields);
    }
    out
}

/// Writes the query of a structured search: the fixed parameters, and then each part that
/// is asked for, form-encoded.
pub fn structured_query(search: &StructuredSearch) -> (query: String)
    ensures
        query@ == structured_query_text(form_encoded(parts(*search))),
{
    let pairs = parameters(search);
    let fields = form_encode(&pairs).unwrap();
    structured_query_from(fields.as_str())
}

/// Writes the query of a reverse lookup. The coordinates lose their blanks and are not
/// changed otherwise; the zoom level is not checked.
pub fn reverse_query(latitude: &str, longitude: &str, zoom: Option<u8>) -> (text: String)
    ensures
        text@ == reverse_query_text(latitude@, longitude@, zoom),
{
    let mut out = String::from_str("lat=");
    let lat = strip_blanks(latitude);
    out.append(lat.as_str());
    out.append("&lon=");
    let lon = strip_blanks(longitude);
    out.append(lon.as_str());
    out.append("&");
    out.append(DETAILS);
    match zoom {
        Some(level) => {
            out.append("&zoom=");
            let digits = decimal(level);
            out.append(digits.as_str());
        },
        None => {},
    }
    out
}

/// Writes the query of a lookup. The ids are not checked.
pub fn lookup_query(ids: &Vec<&str>) -> (text: String)
    ensures
        text@ == lookup_query_text(texts(ids@)),
{
    let mut out = String::from_str("osm_ids=");
    let list = join_with(ids, ",");
    out.append(list.as_str());
    out.append("&");
    out.append(DETAILS);
    out
}

} // verus!
