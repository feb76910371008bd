//! The records that a Nominatim server answers with, and the parameters of a structured
//! search.

use crate::json::Number;
use crate::json::NumberView;
use vstd::prelude::*;

verus! {

/// The characters of an optional text.
pub open spec fn text_of(text: Option<String>) -> Option<Seq<char>> {
    match text {
        Some(t) => Some(t@),
        None => None,
    }
}

/// The characters of each text of a list.
pub open spec fn text_views(items: Seq<String>) -> Seq<Seq<char>> {
    items.map_values(|item: String| item@)
}

/// The status of a Nominatim server.
#[derive(Clone, Debug, PartialEq, Eq)]
pub struct Status {
    pub status: usize,
    pub message: String,
    pub data_updated: Option<String>,
    pub software_version: Option<String>,
    pub database_version: Option<String>,
}

/// What a `Status` holds.
pub struct StatusView {
    pub status: usize,
    pub message: Seq<char>,
    pub data_updated: Option<Seq<char>>,
    pub software_version: Option<Seq<char>>,
    pub database_version: Option<Seq<char>>,
}

impl View for Status {
    type V = StatusView;

    open spec fn view(&self) -> StatusView {
        StatusView {
            status: self.status,
            message: self.message@,
            data_updated: text_of(self.data_updated),
            software_version: text_of(self.software_version),
            database_version: text_of(self.database_version),
        }
    }
}

/// An address for a place. A level that the server left out is `None`.
#[derive(Clone, Debug, PartialEq, Eq)]
pub struct Address {
    pub city: Option<String>,
    pub state_district: Option<String>,
    pub state: Option<String>,
    pub iso3166_2_lvl4: Option<String>,
    pub postcode: Option<String>,
    pub country: Option<String>,
    pub country_code: Option<String>,
    pub county: Option<String>,
    pub suburb: Option<String>,
}

/// What an `Address` holds.
pub struct AddressView {
    pub city: Option<Seq<char>>,
    pub state_district: Option<Seq<char>>,
    pub state: Option<Seq<char>>,
    pub iso3166_2_lvl4: Option<Seq<char>>,
    pub postcode: Option<Seq<char>>,
    pub country: Option<Seq<char>>,
    pub country_code: Option<Seq<char>>,
    pub county: Option<Seq<char>>,
    pub suburb: Option<Seq<char>>,
}

impl View for Address {
    type V = AddressView;

    open spec fn view(&self) -> AddressView {
        AddressView {
            city: text_of(self.city),
            state_district: text_of(self.state_district),
            state: text_of(self.state),
            iso3166_2_lvl4: text_of(self.iso3166_2_lvl4),
            postcode: text_of(self.postcode),
            country: text_of(self.country),
            country_code: text_of(self.country_code),
            county: text_of(self.county),
            suburb: text_of(self.suburb),
        }
    }
}

/// Extra metadata that a place may have.
#[derive(Clone, Debug, PartialEq, Eq)]
pub struct ExtraTags {
    pub capital: Option<String>,
    pub website: Option<String>,
    pub wikidata: Option<String>,
    pub wikipedia: Option<String>,
    pub population: Option<String>,
}

/// What an `ExtraTags` holds.
pub struct ExtraTagsView {
    pub capital: Option<Seq<char>>,
    pub website: Option<Seq<char>>,
    pub wikidata: Option<Seq<char>>,
    pub wikipedia: Option<Seq<char>>,
    pub population: Option<Seq<char>>,
}

impl View for ExtraTags {
    type V = ExtraTagsView;

    open spec fn view(&self) -> ExtraTagsView {
        ExtraTagsView {
            capital: text_of(self.capital),
            website: text_of(self.website),
            wikidata: text_of(self.wikidata),
            wikipedia: text_of(self.wikipedia),
            population: text_of(self.population),
        }
    }
}

/// A location returned by the Nominatim server. Latitude and longitude are the decimal
/// texts that the server sent.
#[derive(Clone, Debug, PartialEq, Eq)]
pub struct Place {
    pub place_id: usize,
    pub licence: String,
    pub osm_type: String,
    pub osm_id: usize,
    pub boundingbox: Vec<String>,
    pub lat: String,
    pub lon: String,
    pub display_name: String,
    pub class: Option<String>,
    pub _type: Option<String>,
    pub importance: Option<Number>,
    pub icon: Option<String>,
    pub address: Option<Address>,
    pub extratags: Option<ExtraTags>,
}

/// What a `Place` holds.
pub struct PlaceView {
    pub place_id: usize,
    pub licence: Seq<char>,
    pub osm_type: Seq<char>,
    pub osm_id: usize,
    pub boundingbox: Seq<Seq<char>>,
    pub lat: Seq<char>,
    pub lon: Seq<char>,
    pub display_name: Seq<char>,
    pub class: Option<Seq<char>>,
    pub _type: Option<Seq<char>>,
    pub importance: Option<NumberView>,
    pub icon: Option<Seq<char>>,
    pub address: Option<AddressView>,
    pub extratags: Option<ExtraTagsView>,
}

impl View for Place {
    type V = PlaceView;

    open spec fn view(&self) -> PlaceView {
        PlaceView {
            place_id: self.place_id,
            licence: self.licence@,
            osm_type: self.osm_type@,
            osm_id: self.osm_id,
            boundingbox: text_views(self.boundingbox@),
            lat: self.lat@,
            lon: self.lon@,
            display_name: self.display_name@,
            class: text_of(self.class),
            _type: text_of(self._type),
            importance: match self.importance {
                Some(n) => Some(n@),
                None => None,
            },
            icon: text_of(self.icon),
            address: match self.address {
                Some(a) => Some(a@),
                None => None,
            },
            extratags: match self.extratags {
                Some(t) => Some(t@),
                None => None,
            },
        }
    }
}

/// The places that `places` holds.
pub open spec fn place_views(places: Seq<Place>) -> Seq<PlaceView> {
    places.map_values(|place: Place| place@)
}

/// The body with which the server says that it found no place.
#[derive(Clone, Debug, PartialEq, Eq, Default, PartialOrd, Ord)]
pub struct ErrorResponse {
    pub error: String,
}

impl View for ErrorResponse {
    type V = Seq<char>;

    /// The server's message.
    open spec fn view(&self) -> Seq<char> {
        self.error@
    }
}

/// One of two things.
#[derive(Clone, Debug, PartialEq, Eq)]
pub enum Either<T, U> {
    Left(T),
    Right(U),
}

/// A search by the parts of an address. A part that is `None` is not asked for.
#[derive(Clone, Debug, PartialEq, Eq, PartialOrd, Ord)]
pub struct StructuredSearch {
    pub amenity: Option<String>,
    pub street: Option<String>,
    pub city: Option<String>,
    pub county: Option<String>,
    pub state: Option<String>,
    pub country: Option<String>,
    pub postalcode: Option<String>,
}

impl StructuredSearch {
    /// Whether no part is asked for.
    pub open spec fn asks_for_nothing(&self) -> bool {
        &&& self.amenity is None
        &&& self.street is None
        &&& self.city is None
        &&& self.county is None
        &&& self.state is None
        &&& self.country is None
        &&& self.postalcode is None
    }
}

impl Default for StructuredSearch {
    fn default() -> (search: StructuredSearch)
        ensures
            search.asks_for_nothing(),
    {
        StructuredSearch {
            amenity: None,
            street: None,
            city: None,
            county: None,
            state: None,
            country: None,
            postalcode: None,
        }
    }
}

} // verus!
