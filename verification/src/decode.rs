//! How the records are read from JSON values.
//!
//! A record is read from a JSON object, member by member in the order of its fields. A
//! member that is absent leaves its field empty, zero or `None`; only a server's status
//! cannot do without its code and its message. A member that is present must hold a value
//! of its field's kind. The first member that cannot be read decides the error.

use crate::error::DecodeError;
use crate::json::get;
use crate::json::member;
use crate::json::Json;
use crate::json::Number;
use crate::json::NumberView;
use crate::model::place_views;
use crate::model::text_of;
use crate::model::text_views;
use crate::model::Address;
use crate::model::AddressView;
use crate::model::Either;
use crate::model::ErrorResponse;
use crate::model::ExtraTags;
use crate::model::ExtraTagsView;
use crate::model::Place;
use crate::model::PlaceView;
use crate::model::Status;
use crate::model::StatusView;
use vstd::prelude::*;

verus! {

/// A text that may be absent: `None` for no member and for `null`.
pub open spec fn optional_text(value: Option<Json>) -> Result<Option<Seq<char>>, DecodeError> {
    match value {
        None => Ok(None),
        Some(Json::Null) => Ok(None),
        Some(Json::Text(text)) => Ok(Some(text@)),
        Some(_) => Err(DecodeError::WrongType),
    }
}

/// A text that is empty where there is no member.
pub open spec fn text_or_empty(value: Option<Json>) -> Result<Seq<char>, DecodeError> {
    match value {
        None => Ok(Seq::empty()),
        Some(Json::Text(text)) => Ok(text@),
        Some(_) => Err(DecodeError::WrongType),
    }
}

/// A text that must be there.
pub open spec fn required_text(value: Option<Json>) -> Result<Seq<char>, DecodeError> {
    match value {
        None => Err(DecodeError::MissingField),
        Some(Json::Text(text)) => Ok(text@),
        Some(_) => Err(DecodeError::WrongType),
    }
}

/// A count: a whole number that is not negative and fits the machine's word.
pub open spec fn count(value: Json) -> Result<usize, DecodeError> {
    match value {
        Json::Number(Number::Unsigned(n)) => if n <= usize::MAX {
            Ok(n as usize)
        } else {
            Err(DecodeError::WrongType)
        },
        Json::Number(Number::Signed(n)) => if 0 <= n <= usize::MAX {
            Ok(n as usize)
        } else {
            Err(DecodeError::WrongType)
        },
        _ => Err(DecodeError::WrongType),
    }
}

/// A count that is zero where there is no member.
pub open spec fn count_or_zero(value: Option<Json>) -> Result<usize, DecodeError> {
    match value {
        None => Ok(0),
        Some(v) => count(v),
    }
}

/// A count that must be there.
pub open spec fn required_count(value: Option<Json>) -> Result<usize, DecodeError> {
    match value {
        None => Err(DecodeError::MissingField),
        Some(v) => count(v),
    }
}

/// A number that may be absent: `None` for no member and for `null`.
pub open spec fn optional_number(value: Option<Json>) -> Result<Option<NumberView>, DecodeError> {
    match value {
        None => Ok(None),
        Some(Json::Null) => Ok(None),
        Some(Json::Number(n)) => Ok(Some(n@)),
        Some(_) => Err(DecodeError::WrongType),
    }
}

/// The texts that `items` holds, where it holds nothing else.
pub open spec fn all_texts(items: Seq<Json>) -> Result<Seq<Seq<char>>, DecodeError> {
    if forall|i: int| 0 <= i < items.len() ==> items[i] is Text {
        Ok(items.map_values(|item: Json| item->Text_0@))
    } else {
        Err(DecodeError::WrongType)
    }
}

/// A list of texts that is empty where there is no member.
pub open spec fn texts_or_empty(value: Option<Json>) -> Result<Seq<Seq<char>>, DecodeError> {
    match value {
        None => Ok(Seq::empty()),
        Some(Json::Array(items)) => all_texts(items@),
        Some(_) => Err(DecodeError::WrongType),
    }
}

/// Reads the member `name` as a text that may be absent.
pub fn read_optional_text(members: &Vec<(String, Json)>, name: &str) -> (r: Result<
    Option<String>,
    DecodeError,
>)
    ensures
        match optional_text(member(members@, name@)) {
            Ok(text) => r matches Ok(t) && text_of(t) == text,
            Err(e) => r == Err::<Option<String>, DecodeError>(e),
        },
{
    match get(members, name) {
        None => Ok(None),
        Some(Json::Null) => Ok(None),
        Some(Json::Text(text)) => Ok(Some(text.clone())),
        Some(_) => Err(DecodeError::WrongType),
    }
}

/// Reads the member `name` as a text that is empty where there is no member.
pub fn read_text_or_empty(members: &Vec<(String, Json)>, name: &str) -> (r: Result<
    String,
    DecodeError,
>)
    ensures
        match text_or_empty(member(members@, name@)) {
            Ok(text) => r matches Ok(t) && t@ == text,
            Err(e) => r == Err::<String, DecodeError>(e),
        },
{
    match get(members, name) {
        None => Ok(String::new()),
        Some(Json::Text(text)) => Ok(text.clone()),
        Some(_) => Err(DecodeError::WrongType),
    }
}

/// Reads the member `name` as a text that must be there.
pub fn read_required_text(members: &Vec<(String, Json)>, name: &str) -> (r: Result<
    String,
    DecodeError,
>)
    ensures
        match required_text(member(members@, name@)) {
            Ok(text) => r matches Ok(t) && t@ == text,
            Err(e) => r == Err::<String, DecodeError>(e),
        },
{
    match get(members, name) {
        None => Err(DecodeError::MissingField),
        Some(Json::Text(text)) => Ok(text.clone()),
        Some(_) => Err(DecodeError::WrongType),
    }
}

fn read_count(value: &Json) -> (r: Result<usize, DecodeError>)
    ensures
        r == count(*value),
{
    match value {
        Json::Number(Number::Unsigned(n)) => {
            if *n <= usize::MAX as u64 {
                Ok(*n as usize)
            } else {
                Err(DecodeError::WrongType)
            }
        },
        Json::Number(Number::Signed(n)) => {
            if 0 <= *n && *n as u64 <= usize::MAX as u64 {
                Ok(*n as usize)
            } else {
                Err(DecodeError::WrongType)
            }
        },
        _ => Err(DecodeError::WrongType),
    }
}

/// Reads the member `name` as a count that is zero where there is no member.
pub fn read_count_or_zero(members: &Vec<(String, Json)>, name: &str) -> (r: Result<
    usize,
    DecodeError,
>)
    ensures
        r == count_or_zero(member(members@, name@)),
{
    match get(members, name) {
        None => Ok(0),
        Some(value) => read_count(value),
    }
}

/// Reads the member `name` as a count that must be there.
pub fn read_required_count(members: &Vec<(String, Json)>, name: &str) -> (r: Result<
    usize,
    DecodeError,
>)
    ensures
        r == required_count(member(members@, name@)),
{
    match get(members, name) {
        None => Err(DecodeError::MissingField),
        Some(value) => read_count(value),
    }
}

fn copy_number(n: &Number) -> (copy: Number)
    ensures
        copy@ == n@,
{
    match n {
        Number::Unsigned(n) => Number::Unsigned(*n),
        Number::Signed(n) => Number::Signed(*n),
        Number::Real(text) => Number::Real(text.clone()),
    }
}

/// Reads the member `name` as a number that may be absent.
pub fn read_optional_number(members: &Vec<(String, Json)>, name: &str) -> (r: Result<
    Option<Number>,
    DecodeError,
>)
    ensures
        match optional_number(member(members@, name@)) {
            Ok(Some(number)) => r matches Ok(Some(n)) && n@ == number,
            Ok(None) => r matches Ok(None),
            Err(e) => r == Err::<Option<Number>, DecodeError>(e),
        },
{
    match get(members, name) {
        None => Ok(None),
        Some(Json::Null) => Ok(None),
        Some(Json::Number(n)) => Ok(Some(copy_number(n))),
        Some(_) => Err(DecodeError::WrongType),
    }
}

/// Reads the member `name` as a list of texts that is empty where there is no member.
pub fn read_texts_or_empty(members: &Vec<(String, Json)>, name: &str) -> (r: Result<
    Vec<String>,
    DecodeError,
>)
    ensures
        match texts_or_empty(member(members@, name@)) {
            Ok(list) => r matches Ok(l) && text_views(l@) == list,
            Err(e) => r == Err::<Vec<String>, DecodeError>(e),
        },
{
    match get(members, name) {
        None => Ok(Vec::new()),
        Some(Json::Array(items)) => {
            let mut out: Vec<String> = Vec::new();
            let mut i: usize = 0;
            while i < items.len()
                invariant
                    i <= items.len(),
                    out@.len() == i,
                    member(members@, name@) == Some(Json::Array(*items)),
                    forall|k: int| 0 <= k < i ==> items@[k] is Text,
                    forall|k: int| 0 <= k < i ==> out@[k]@ == items@[k]->Text_0@,
                decreases items.len() - i,
            {
                match &items[i] {
                    Json::Text(text) => {
                        out.push(text.clone());
                    },
                    _ => {
                        return Err(DecodeError::WrongType);
                    },
                }
                i += 1;
            }
            Ok(out)
        },
        Some(_) => Err(DecodeError::WrongType),
    }
}

impl Status {
    /// The status that `body` holds.
    pub open spec fn decoded(body: Json) -> Result<StatusView, DecodeError> {
        match body {
            Json::Object(members) => {
                let status = required_count(member(members@, "status"@));
                let message = required_text(member(members@, "message"@));
                let data_updated = optional_text(member(members@, "data_updated"@));
                let software_version = optional_text(member(members@, "software_version"@));
                let database_version = optional_text(member(members@, "database_version"@));
                if status is Err {
                    Err(status->Err_0)
                } else if message is Err {
                    Err(message->Err_0)
                } else if data_updated is Err {
                    Err(data_updated->Err_0)
                } else if software_version is Err {
                    Err(software_version->Err_0)
                } else if database_version is Err {
                    Err(database_version->Err_0)
                } else {
                    Ok(
                        StatusView {
                            status: status->Ok_0,
                            message: message->Ok_0,
                            data_updated: data_updated->Ok_0,
                            software_version: software_version->Ok_0,
                            database_version: database_version->Ok_0,
                        },
                    )
                }
            },
            _ => Err(DecodeError::NotAnObject),
        }
    }

    /// Reads a server's status. A status code other than zero is read like any other.
    pub fn decode(body: &Json) -> (r: Result<Status, DecodeError>)
        ensures
            match Status::decoded(*body) {
                Ok(status) => r matches Ok(s) && s@ == status,
                Err(e) => r == Err::<Status, DecodeError>(e),
            },
    {
        match body {
            Json::Object(members) => {
                let status = read_required_count(members, "status")?;
                let message = read_required_text(members, "message")?;
                let data_updated = read_optional_text(members, "data_updated")?;
                let software_version = read_optional_text(members, "software_version")?;
                let database_version = read_optional_text(members, "database_version")?;
                Ok(Status { status, message, data_updated, software_version, database_version })
            },
            _ => Err(DecodeError::NotAnObject),
        }
    }
}

impl Address {
    /// The address that `body` holds.
    pub open spec fn decoded(body: Json) -> Result<AddressView, DecodeError> {
        match body {
            Json::Object(members) => {
                let city = optional_text(member(members@, "city"@));
                let state_district = optional_text(member(members@, "state_district"@));
                let state = optional_text(member(members@, "state"@));
                let iso3166_2_lvl4 = optional_text(member(members@, "ISO3166-2-lvl4"@));
                let postcode = optional_text(member(members@, "postcode"@));
                let country = optional_text(member(members@, "country"@));
                let country_code = optional_text(member(members@, "country_code"@));
                let county = optional_text(member(members@, "county"@));
                let suburb = optional_text(member(members@, "suburb"@));
                if city is Err {
                    Err(city->Err_0)
                } else if state_district is Err {
                    Err(state_district->Err_0)
                } else if state is Err {
                    Err(state->Err_0)
                } else if iso3166_2_lvl4 is Err {
                    Err(iso3166_2_lvl4->Err_0)
                } else if postcode is Err {
                    Err(postcode->Err_0)
                } else if country is Err {
                    Err(country->Err_0)
                } else if country_code is Err {
                    Err(country_code->Err_0)
                } else if county is Err {
                    Err(county->Err_0)
                } else if suburb is Err {
                    Err(suburb->Err_0)
                } else {
                    Ok(
                        AddressView {
                            city: city->Ok_0,
                            state_district: state_district->Ok_0,
                            state: state->Ok_0,
                            iso3166_2_lvl4: iso3166_2_lvl4->Ok_0,
                            postcode: postcode->Ok_0,
                            country: country->Ok_0,
                            country_code: country_code->Ok_0,
                            county: county->Ok_0,
                            suburb: suburb->Ok_0,
                        },
                    )
                }
            },
            _ => Err(DecodeError::NotAnObject),
        }
    }

    /// Reads an address.
    pub fn decode(body: &Json) -> (r: Result<Address, DecodeError>)
        ensures
            match Address::decoded(*body) {
                Ok(address) => r matches Ok(a) && a@ == address,
                Err(e) => r == Err::<Address, DecodeError>(e),
            },
    {
        match body {
            Json::Object(members) => {
                let city = read_optional_text(members, "city")?;
                let state_district = read_optional_text(members, "state_district")?;
                let state = read_optional_text(members, "state")?;
                let iso3166_2_lvl4 = read_optional_text(members, "ISO3166-2-lvl4")?;
                let postcode = read_optional_text(members, "postcode")?;
                let country = read_optional_text(members, "country")?;
                let country_code = read_optional_text(members, "country_code")?;
                let county = read_optional_text(members, "county")?;
                let suburb = read_optional_text(members, "suburb")?;
                Ok(
                    Address {
                        city,
                        state_district,
                        state,
                        iso3166_2_lvl4,
                        postcode,
                        country,
                        country_code,
                        county,
                        suburb,
                    },
                )
            },
            _ => Err(DecodeError::NotAnObject),
        }
    }
}

impl ExtraTags {
    /// The tags that `body` holds.
    pub open spec fn decoded(body: Json) -> Result<ExtraTagsView, DecodeError> {
        match body {
            Json::Object(members) => {
                let capital = optional_text(member(members@, "capital"@));
                let website = optional_text(member(members@, "website"@));
                let wikidata = optional_text(member(members@, "wikidata"@));
                let wikipedia = optional_text(member(members@, "wikipedia"@));
                let population = optional_text(member(members@, "population"@));
                if capital is Err {
                    Err(capital->Err_0)
                } else if website is Err {
                    Err(website->Err_0)
                } else if wikidata is Err {
                    Err(wikidata->Err_0)
                } else if wikipedia is Err {
                    Err(wikipedia->Err_0)
                } else if population is Err {
                    Err(population->Err_0)
                } else {
                    Ok(
                        ExtraTagsView {
                            capital: capital->Ok_0,
                            website: website->Ok_0,
                            wikidata: wikidata->Ok_0,
                            wikipedia: wikipedia->Ok_0,
                            population: population->Ok_0,
                        },
                    )
                }
            },
            _ => Err(DecodeError::NotAnObject),
        }
    }

    /// Reads a place's extra tags.
    pub fn decode(body: &Json) -> (r: Result<ExtraTags, DecodeError>)
        ensures
            match ExtraTags::decoded(*body) {
                Ok(tags) => r matches Ok(t) && t@ == tags,
                Err(e) => r == Err::<ExtraTags, DecodeError>(e),
            },
    {
        match body {
            Json::Object(members) => {
                let capital = read_optional_text(members, "capital")?;
                let website = read_optional_text(members, "website")?;
                let wikidata = read_optional_text(members, "wikidata")?;
                let wikipedia = read_optional_text(members, "wikipedia")?;
                let population = read_optional_text(members, "population")?;
                Ok(ExtraTags { capital, website, wikidata, wikipedia, population })
            },
            _ => Err(DecodeError::NotAnObject),
        }
    }
}

/// An address that may be absent: `None` for no member and for `null`.
pub open spec fn optional_address(value: Option<Json>) -> Result<Option<AddressView>, DecodeError> {
    match value {
        None => Ok(None),
        Some(Json::Null) => Ok(None),
        Some(body) => match Address::decoded(body) {
            Ok(address) => Ok(Some(address)),
            Err(e) => Err(e),
        },
    }
}

/// Extra tags that may be absent: `None` for no member and for `null`.
pub open spec fn optional_tags(value: Option<Json>) -> Result<Option<ExtraTagsView>, DecodeError> {
    match value {
        None => Ok(None),
        Some(Json::Null) => Ok(None),
        Some(body) => match ExtraTags::decoded(body) {
            Ok(tags) => Ok(Some(tags)),
            Err(e) => Err(e),
        },
    }
}

fn read_optional_address(members: &Vec<(String, Json)>, name: &str) -> (r: Result<
    Option<Address>,
    DecodeError,
>)
    ensures
        match optional_address(member(members@, name@)) {
            Ok(Some(address)) => r matches Ok(Some(a)) && a@ == address,
            Ok(None) => r matches Ok(None),
            Err(e) => r == Err::<Option<Address>, DecodeError>(e),
        },
{
    match get(members, name) {
        None => Ok(None),
        Some(Json::Null) => Ok(None),
        Some(body) => Ok(Some(Address::decode(body)?)),
    }
}

fn read_optional_tags(members: &Vec<(String, Json)>, name: &str) -> (r: Result<
    Option<ExtraTags>,
    DecodeError,
>)
    ensures
        match optional_tags(member(members@, name@)) {
            Ok(Some(tags)) => r matches Ok(Some(t)) && t@ == tags,
            Ok(None) => r matches Ok(None),
            Err(e) => r == Err::<Option<ExtraTags>, DecodeError>(e),
        },
{
    match get(members, name) {
        None => Ok(None),
        Some(Json::Null) => Ok(None),
        Some(body) => Ok(Some(ExtraTags::decode(body)?)),
    }
}

impl Place {
    /// The place that `body` holds.
    pub open spec fn decoded(body: Json) -> Result<PlaceView, DecodeError> {
        match body {
            Json::Object(members) => {
                let place_id = count_or_zero(member(members@, "place_id"@));
                let licence = text_or_empty(member(members@, "licence"@));
                let osm_type = text_or_empty(member(members@, "osm_type"@));
                let osm_id = count_or_zero(member(members@, "osm_id"@));
                let boundingbox = texts_or_empty(member(members@, "boundingbox"@));
                let lat = text_or_empty(member(members@, "lat"@));
                let lon = text_or_empty(member(members@, "lon"@));
                let display_name = text_or_empty(member(members@, "display_name"@));
                let class = optional_text(member(members@, "class"@));
                let _type = optional_text(member(members@, "type"@));
                let importance = optional_number(member(members@, "importance"@));
                let icon = optional_text(member(members@, "icon"@));
                let address = optional_address(member(members@, "address"@));
                let extratags = optional_tags(member(members@, "extratags"@));
                if place_id is Err {
                    Err(place_id->Err_0)
                } else if licence is Err {
                    Err(licence->Err_0)
                } else if osm_type is Err {
                    Err(osm_type->Err_0)
                } else if osm_id is Err {
                    Err(osm_id->Err_0)
                } else if boundingbox is Err {
                    Err(boundingbox->Err_0)
                } else if lat is Err {
                    Err(lat->Err_0)
                } else if lon is Err {
                    Err(lon->Err_0)
                } else if display_name is Err {
                    Err(display_name->Err_0)
                } else if class is Err {
                    Err(class->Err_0)
                } else if _type is Err {
                    Err(_type->Err_0)
                } else if importance is Err {
                    Err(importance->Err_0)
                } else if icon is Err {
                    Err(icon->Err_0)
                } else if address is Err {
                    Err(address->Err_0)
                } else if extratags is Err {
                    Err(extratags->Err_0)
                } else {
                    Ok(
                        PlaceView {
                            place_id: place_id->Ok_0,
                            licence: licence->Ok_0,
                            osm_type: osm_type->Ok_0,
                            osm_id: osm_id->Ok_0,
                            boundingbox: boundingbox->Ok_0,
                            lat: lat->Ok_0,
                            lon: lon->Ok_0,
                            display_name: display_name->Ok_0,
                            class: class->Ok_0,
                            _type: _type->Ok_0,
                            importance: importance->Ok_0,
                            icon: icon->Ok_0,
                            address: address->Ok_0,
                            extratags: extratags->Ok_0,
                        },
                    )
                }
            },
            _ => Err(DecodeError::NotAnObject),
        }
    }

    /// Reads a place. Latitude and longitude are kept as the texts that `body` holds.
    pub fn decode(body: &Json) -> (r: Result<Place, DecodeError>)
        ensures
            match Place::decoded(*body) {
                Ok(place) => r matches Ok(p) && p@ == place,
                Err(e) => r == Err::<Place, DecodeError>(e),
            },
    {
        match body {
            Json::Object(members) => {
                let place_id = read_count_or_zero(members, "place_id")?;
                let licence = read_text_or_empty(members, "licence")?;
                let osm_type = read_text_or_empty(members, "osm_type")?;
                let osm_id = read_count_or_zero(members, "osm_id")?;
                let boundingbox = read_texts_or_empty(members, "boundingbox")?;
                let lat = read_text_or_empty(members, "lat")?;
                let lon = read_text_or_empty(members, "lon")?;
                let display_name = read_text_or_empty(members, "display_name")?;
                let class = read_optional_text(members, "class")?;
                let _type = read_optional_text(members, "type")?;
                let importance = read_optional_number(members, "importance")?;
                let icon = read_optional_text(members, "icon")?;
                let address = read_optional_address(members, "address")?;
                let extratags = read_optional_tags(members, "extratags")?;
                Ok(
                    Place {
                        place_id,
                        licence,
                        osm_type,
                        osm_id,
                        boundingbox,
                        lat,
                        lon,
                        display_name,
                        class,
                        _type,
                        importance,
                        icon,
                        address,
                        extratags,
                    },
                )
            },
            _ => Err(DecodeError::NotAnObject),
        }
    }
}

impl ErrorResponse {
    /// The message that `body` holds, where `body` is an object with a text named `error`.
    pub open spec fn decoded(body: Json) -> Result<Seq<char>, DecodeError> {
        match body {
            Json::Object(members) => required_text(member(members@, "error"@)),
            _ => Err(DecodeError::NotAnObject),
        }
    }

    /// Reads the body with which the server says that it found no place.
    pub fn decode(body: &Json) -> (r: Result<ErrorResponse, DecodeError>)
        ensures
            match ErrorResponse::decoded(*body) {
                Ok(message) => r matches Ok(response) && response@ == message,
                Err(e) => r == Err::<ErrorResponse, DecodeError>(e),
            },
    {
        match body {
            Json::Object(members) => {
                let error = read_required_text(members, "error")?;
                Ok(ErrorResponse { error })
            },
            _ => Err(DecodeError::NotAnObject),
        }
    }
}

/// What the answer to a reverse lookup holds: the server's message where `body` is an
/// error response, and else the place that `body` holds.
pub open spec fn reverse_decoded(body: Json) -> Result<Either<Seq<char>, PlaceView>, DecodeError> {
    match ErrorResponse::decoded(body) {
        Ok(message) => Ok(Either::Left(message)),
        Err(_) => match Place::decoded(body) {
            Ok(place) => Ok(Either::Right(place)),
            Err(e) => Err(e),
        },
    }
}

/// Reads the answer to a reverse lookup, which is an error response or a place.
pub fn decode_reverse(body: &Json) -> (r: Result<Either<ErrorResponse, Place>, DecodeError>)
    ensures
        match reverse_decoded(*body) {
            Ok(Either::Left(message)) => r matches Ok(Either::Left(response)) && response@
                == message,
            Ok(Either::Right(place)) => r matches Ok(Either::Right(p)) && p@ == place,
            Err(e) => r == Err::<Either<ErrorResponse, Place>, DecodeError>(e),
        },
{
    match ErrorResponse::decode(body) {
        Ok(response) => Ok(Either::Left(response)),
        Err(_) => match Place::decode(body) {
            Ok(place) => Ok(Either::Right(place)),
            Err(e) => Err(e),
        },
    }
}

/// The place that a reverse lookup found: none where the server answered that there is
/// none.
pub fn found(answer: Either<ErrorResponse, Place>) -> (r: Option<Place>)
    ensures
        r == match answer {
            Either::Left(_) => None,
            Either::Right(place) => Some(place),
        },
{
    match answer {
        Either::Left(_) => None,
        Either::Right(place) => Some(place),
    }
}

/// The places that `items` hold, in order; the first item that holds none decides the
/// error.
pub open spec fn all_places(items: Seq<Json>) -> Result<Seq<PlaceView>, DecodeError>
    decreases items.len(),
{
    if items.len() == 0 {
        Ok(Seq::empty())
    } else {
        match all_places(items.drop_last()) {
            Ok(places) => match Place::decoded(items.last()) {
                Ok(place) => Ok(places.push(place)),
                Err(e) => Err(e),
            },
            Err(e) => Err(e),
        }
    }
}

/// The places that the answer to a search or a lookup holds.
pub open spec fn places_decoded(body: Json) -> Result<Seq<PlaceView>, DecodeError> {
    match body {
        Json::Array(items) => all_places(items@),
        _ => Err(DecodeError::NotAnArray),
    }
}

/// Reads the answer to a search or a lookup: the places in the server's order, as many as
/// the server sent.
pub fn decode_places(body: &Json) -> (r: Result<Vec<Place>, DecodeError>)
    ensures
        match places_decoded(*body) {
            Ok(places) => r matches Ok(p) && place_views(p@) == places && p@.len()
                == places.len(),
            Err(e) => r == Err::<Vec<Place>, DecodeError>(e),
        },
{
    match body {
        Json::Array(items) => {
            let mut out: Vec<Place> = Vec::new();
            let mut i: usize = 0;
            proof {
                assert(place_views(out@) =~= Seq::<PlaceView>::empty());
            }
            while i < items.len()
                invariant
                    i <= items.len(),
                    *body == Json::Array(*items),
                    all_places(items@.take(i as int)) == Ok::<Seq<PlaceView>, DecodeError>(
                        place_views(out@),
                    ),
                decreases items.len() - i,
            {
                proof {
                    assert(items@.take(i + 1).drop_last() =~= items@.take(i as int));
                }
                match Place::decode(&items[i]) {
                    Ok(place) => {
                        proof {
                            assert(place_views(out@.push(place)) =~= place_views(out@).push(
                                place@,
                            ));
                        }
                        out.push(place);
                    },
                    Err(e) => {
                        proof {
                            lemma_failure_stays(items@, i + 1);
                        }
                        return Err(e);
                    },
                }
                i += 1;
            }
            proof {
                assert(items@.take(items.len() as int) =~= items@);
            }
            Ok(out)
        },
        _ => Err(DecodeError::NotAnArray),
    }
}

/// An error among the first `n` items is the error of all of them.
proof fn lemma_failure_stays(items: Seq<Json>, n: int)
    requires
        0 <= n <= items.len(),
        all_places(items.take(n)) is Err,
    ensures
        all_places(items) == all_places(items.take(n)),
    decreases items.len() - n,
{
    if n < items.len() {
        assert(items.take(n + 1).drop_last() =~= items.take(n));
        lemma_failure_stays(items, n + 1);
    } else {
        assert(items.take(n) =~= items);
    }
}

} // verus!
