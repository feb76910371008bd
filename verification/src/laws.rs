//! What holds of every request and of every answer.

use crate::client::Client;
use crate::client::Request;
use crate::decode::all_places;
use crate::decode::optional_address;
use crate::decode::optional_number;
use crate::decode::optional_tags;
use crate::decode::optional_text;
use crate::decode::count_or_zero;
use crate::decode::places_decoded;
use crate::decode::reverse_decoded;
use crate::decode::text_or_empty;
use crate::decode::texts_or_empty;
use crate::encoding::component_byte;
use crate::encoding::form_byte;
use crate::encoding::form_component;
use crate::encoding::form_encoded;
use crate::encoding::form_pair;
use crate::encoding::is_form_safe;
use crate::encoding::is_unreserved;
use crate::encoding::percent_encoded;
use crate::error::DecodeError;
use crate::error::Error;
use crate::header::is_sendable;
use crate::json::member;
use crate::json::Json;
use crate::model::Either;
use crate::model::ErrorResponse;
use crate::model::Place;
use crate::model::PlaceView;
use crate::model::StructuredSearch;
use crate::query::detail_text;
use crate::query::part;
use crate::query::parts;
use crate::query::structured_query_text;
use crate::text::is_blank;
use crate::text::without_blanks;
use crate::uri::has_room;
use vstd::prelude::*;
use vstd::utf8::encode_utf8;
use vstd::utf8::is_ascii_chars;
use vstd::utf8::is_ascii_chars_encode_utf8;

verus! {

/// Every request that a client issues carries exactly one header, which is the client's
/// identification, whatever the endpoint and the query are; and no client issues a request
/// with an identification that cannot be sent.
pub proof fn lemma_every_request_is_identified(
    client: Client,
    endpoint: Option<Seq<char>>,
    query: Seq<char>,
    request: Request,
)
    requires
        client.issues(endpoint, query, Ok(request)),
    ensures
        is_sendable(client.identification()),
        request.headers@.len() == 1,
        request.headers@[0].name@ == client.identification().header_name(),
        request.headers@[0].value@ == client.identification().header_value(),
{
}

/// A client whose identification can be sent fails to issue a request only for the URL's
/// sake: where the endpoint does not exist or has no room for the query.
pub proof fn lemma_a_sendable_client_is_not_refused(
    client: Client,
    endpoint: Option<Seq<char>>,
    query: Seq<char>,
    outcome: Result<Request, Error>,
)
    requires
        is_sendable(client.identification()),
        client.issues(endpoint, query, outcome),
        endpoint matches Some(url) && has_room(url, query),
    ensures
        outcome is Ok,
{
}

/// An answer that is an empty array holds no place, and is no error.
pub proof fn lemma_empty_answer_holds_no_place(body: Json)
    requires
        body matches Json::Array(items) && items@.len() == 0,
    ensures
        places_decoded(body) == Ok::<Seq<PlaceView>, DecodeError>(Seq::empty()),
{
}

/// A body that is an error response is read as the server's message and as no place,
/// whatever else it holds; so a reverse lookup that finds nothing does not fail.
pub proof fn lemma_error_response_is_no_place(body: Json, message: String)
    requires
        body matches Json::Object(members) && member(members@, "error"@) == Some(
            Json::Text(message),
        ),
    ensures
        reverse_decoded(body) == Ok::<Either<Seq<char>, PlaceView>, DecodeError>(
            Either::Left(message@),
        ),
{
}

/// A place that is read from a body has the latitude and the longitude of the body,
/// character for character.
pub proof fn lemma_coordinates_are_kept(body: Json, latitude: String, longitude: String)
    requires
        body matches Json::Object(members) && member(members@, "lat"@) == Some(
            Json::Text(latitude),
        ) && member(members@, "lon"@) == Some(Json::Text(longitude)),
        Place::decoded(body) is Ok,
    ensures
        Place::decoded(body)->Ok_0.lat == latitude@,
        Place::decoded(body)->Ok_0.lon == longitude@,
        ErrorResponse::decoded(body) is Err ==> reverse_decoded(body) == Ok::<
            Either<Seq<char>, PlaceView>,
            DecodeError,
        >(Either::Right(Place::decoded(body)->Ok_0)),
{
}

/// Whether every member of a place but its address and its extra tags can be read.
pub open spec fn rest_is_readable(members: Seq<(String, Json)>) -> bool {
    &&& count_or_zero(member(members, "place_id"@)) is Ok
    &&& text_or_empty(member(members, "licence"@)) is Ok
    &&& text_or_empty(member(members, "osm_type"@)) is Ok
    &&& count_or_zero(member(members, "osm_id"@)) is Ok
    &&& texts_or_empty(member(members, "boundingbox"@)) is Ok
    &&& text_or_empty(member(members, "lat"@)) is Ok
    &&& text_or_empty(member(members, "lon"@)) is Ok
    &&& text_or_empty(member(members, "display_name"@)) is Ok
    &&& optional_text(member(members, "class"@)) is Ok
    &&& optional_text(member(members, "type"@)) is Ok
    &&& optional_number(member(members, "importance"@)) is Ok
    &&& optional_text(member(members, "icon"@)) is Ok
}

/// A place without an address and without extra tags is read as long as the rest of it can
/// be read, and then has `None` for both.
pub proof fn lemma_absent_parts_are_none(body: Json)
    requires
        body matches Json::Object(members) && member(members@, "address"@) is None && member(
            members@,
            "extratags"@,
        ) is None,
    ensures
        Place::decoded(body) is Ok <==> rest_is_readable(body->Object_0@),
        Place::decoded(body) matches Ok(place) ==> place.address is None && place.extratags
            is None,
{
}

/// An object without members is a place: no field of a place is required.
pub proof fn lemma_no_member_is_required(body: Json)
    requires
        body matches Json::Object(members) && members@.len() == 0,
    ensures
        Place::decoded(body) is Ok,
{
}

/// The places that are read from an array are as many as the array's items, and each is the
/// place of the item at its position.
pub proof fn lemma_places_follow_items(items: Seq<Json>)
    requires
        all_places(items) is Ok,
    ensures
        all_places(items)->Ok_0.len() == items.len(),
        forall|i: int|
            0 <= i < items.len() ==> Place::decoded(#[trigger] items[i]) == Ok::<
                PlaceView,
                DecodeError,
            >(all_places(items)->Ok_0[i]),
    decreases items.len(),
{
    if items.len() > 0 {
        lemma_places_follow_items(items.drop_last());
        assert forall|i: int| 0 <= i < items.len() implies Place::decoded(#[trigger] items[i])
            == Ok::<PlaceView, DecodeError>(all_places(items)->Ok_0[i]) by {
            if i < items.len() - 1 {
                assert(items.drop_last()[i] == items[i]);
            }
        }
    }
}

/// An array with an item that is no place is read as no places at all: an answer is read
/// whole or not at all.
pub proof fn lemma_no_answer_is_read_in_part(items: Seq<Json>, i: int)
    requires
        0 <= i < items.len(),
        Place::decoded(items[i]) is Err,
    ensures
        all_places(items) is Err,
    decreases items.len(),
{
    if i < items.len() - 1 {
        lemma_no_answer_is_read_in_part(items.drop_last(), i);
    }
}

/// A coordinate without blanks is sent as it was given, character for character: it is not
/// read as a number and written again.
pub proof fn lemma_coordinates_are_sent_as_given(text: Seq<char>)
    requires
        forall|i: int| 0 <= i < text.len() ==> !is_blank(#[trigger] text[i]),
    ensures
        without_blanks(text) == text,
    decreases text.len(),
{
    reveal(Seq::filter);
    if text.len() > 0 {
        lemma_coordinates_are_sent_as_given(text.drop_last());
    }
}

/// Whether `c` can stand in an escaped URL component: a percent sign, or a character whose
/// byte is unreserved.
pub open spec fn is_inert(c: char) -> bool {
    c == '%' || (c as nat) < 128 && is_unreserved(c as u8)
}

proof fn lemma_flatten_keeps(pieces: Seq<Seq<char>>)
    requires
        forall|k: int, j: int|
            0 <= k < pieces.len() && 0 <= j < pieces[k].len() ==> is_inert(
                #[trigger] pieces[k][j],
            ),
    ensures
        forall|i: int| 0 <= i < pieces.flatten().len() ==> is_inert(#[trigger] pieces.flatten()[i]),
    decreases pieces.len(),
{
    if pieces.len() > 0 {
        let rest = pieces.drop_first();
        lemma_flatten_keeps(rest);
        assert forall|i: int| 0 <= i < pieces.flatten().len() implies is_inert(
            #[trigger] pieces.flatten()[i],
        ) by {
            if i >= pieces[0].len() {
                assert(pieces.flatten()[i] == rest.flatten()[i - pieces[0].len()]);
            }
        }
    }
}

/// Escaped text holds nothing but unreserved characters and percent escapes: what a search
/// asks for can neither end its parameter nor begin another.
pub proof fn lemma_escaped_text_is_inert(text: Seq<char>)
    ensures
        forall|i: int|
            0 <= i < percent_encoded(text).len() ==> is_inert(#[trigger] percent_encoded(text)[i]),
        !percent_encoded(text).contains('&'),
        !percent_encoded(text).contains('='),
        !percent_encoded(text).contains('#'),
{
    lemma_flatten_keeps(encode_utf8(text).map_values(|b: u8| component_byte(b)));
}

/// Whether `c` is a character that a form field holds as it is.
pub open spec fn is_plain(c: char) -> bool {
    c <= '\u{7f}' && is_form_safe(c as u8)
}

proof fn lemma_no_character_is_negative(c: char)
    ensures
        '\0' <= c,
{
}

proof fn lemma_flatten_of_singletons(pieces: Seq<Seq<char>>, text: Seq<char>)
    requires
        pieces.len() == text.len(),
        forall|i: int| 0 <= i < text.len() ==> #[trigger] pieces[i] == seq![text[i]],
    ensures
        pieces.flatten() == text,
    decreases pieces.len(),
{
    if pieces.len() > 0 {
        lemma_flatten_of_singletons(pieces.drop_last(), text.drop_last());
        pieces.drop_last().lemma_flatten_push(pieces.last());
        assert(pieces.drop_last().push(pieces.last()) =~= pieces);
    }
}

/// A name or a value that holds nothing but ASCII letters, digits, `*`, `-`, `.` and `_` is
/// sent as it is.
pub proof fn lemma_plain_text_is_sent_as_it_is(text: Seq<char>)
    requires
        forall|i: int| 0 <= i < text.len() ==> is_plain(#[trigger] text[i]),
    ensures
        form_component(text) == text,
{
    assert forall|i: int| 0 <= i < text.len() implies '\0' <= #[trigger] text[i] <= '\u{7f}' by {
        lemma_no_character_is_negative(text[i]);
    }
    is_ascii_chars_encode_utf8(text);
    let pieces = encode_utf8(text).map_values(|b: u8| form_byte(b));
    lemma_flatten_of_singletons(pieces, text);
}

/// Whether no pair of `pairs` is named `name`.
pub open spec fn lacks(pairs: Seq<(Seq<char>, Seq<char>)>, name: Seq<char>) -> bool {
    forall|j: int| 0 <= j < pairs.len() ==> (#[trigger] pairs[j]).0 != name
}

/// Whether `pairs` send what `value` asks for under `name`: where there is a value, one
/// pair of that name, with that value; where there is none, no pair of that name.
pub open spec fn sends(
    pairs: Seq<(Seq<char>, Seq<char>)>,
    name: Seq<char>,
    value: Option<String>,
) -> bool {
    match value {
        Some(v) => exists|i: int|
            0 <= i < pairs.len() && #[trigger] pairs[i] == (name, v@) && forall|j: int|
                0 <= j < pairs.len() && (#[trigger] pairs[j]).0 == name ==> j == i,
        None => lacks(pairs, name),
    }
}

/// A structured search sends a part exactly where the part is asked for, and then once and
/// with the value asked for.
pub proof fn lemma_a_part_is_sent_where_it_is_asked_for(search: StructuredSearch)
    ensures
        sends(parts(search), "amenity"@, search.amenity),
        sends(parts(search), "street"@, search.street),
        sends(parts(search), "city"@, search.city),
        sends(parts(search), "county"@, search.county),
        sends(parts(search), "state"@, search.state),
        sends(parts(search), "country"@, search.country),
        sends(parts(search), "postalcode"@, search.postalcode),
{
    reveal_strlit("amenity");
    reveal_strlit("street");
    reveal_strlit("city");
    reveal_strlit("county");
    reveal_strlit("state");
    reveal_strlit("country");
    reveal_strlit("postalcode");
    assert("amenity"@.len() == 7 && "amenity"@[0] == 'a');
    assert("street"@.len() == 6 && "street"@[0] == 's');
    assert("city"@.len() == 4 && "city"@[0] == 'c');
    assert("county"@.len() == 6 && "county"@[0] == 'c');
    assert("state"@.len() == 5 && "state"@[0] == 's');
    assert("country"@.len() == 7 && "country"@[0] == 'c');
    assert("postalcode"@.len() == 10 && "postalcode"@[0] == 'p');
    let a = part("amenity"@, search.amenity);
    let b = a + part("street"@, search.street);
    let c = b + part("city"@, search.city);
    let d = c + part("county"@, search.county);
    let e = d + part("state"@, search.state);
    let f = e + part("country"@, search.country);
    let g = f + part("postalcode"@, search.postalcode);
    assert(sends(a, "amenity"@, search.amenity)) by {
        if search.amenity is Some {
            assert(a[0] == ("amenity"@, search.amenity->0@));
        }
    }
    assert(lacks(a, "street"@) && lacks(a, "city"@) && lacks(a, "county"@) && lacks(a, "state"@)
        && lacks(a, "country"@) && lacks(a, "postalcode"@));
    lemma_one_more_part(a, "street"@, search.street);
    lemma_one_more_part(b, "city"@, search.city);
    lemma_one_more_part(c, "county"@, search.county);
    lemma_one_more_part(d, "state"@, search.state);
    lemma_one_more_part(e, "country"@, search.country);
    lemma_one_more_part(f, "postalcode"@, search.postalcode);
}

/// One more part after `pairs`, under a name that `pairs` lack, is sent as it is asked
/// for, leaves what `pairs` send under other names, and adds no other name.
proof fn lemma_one_more_part(
    pairs: Seq<(Seq<char>, Seq<char>)>,
    name: Seq<char>,
    value: Option<String>,
)
    ensures
        lacks(pairs, name) ==> sends(pairs + part(name, value), name, value),
        forall|other: Seq<char>, asked: Option<String>|
            other != name && sends(pairs, other, asked) ==> #[trigger] sends(
                pairs + part(name, value),
                other,
                asked,
            ),
        forall|other: Seq<char>|
            other != name && lacks(pairs, other) ==> #[trigger] lacks(
                pairs + part(name, value),
                other,
            ),
{
    let more = pairs + part(name, value);
    if lacks(pairs, name) && value is Some {
        assert(more[pairs.len() as int] == (name, value->0@));
    }
    assert forall|other: Seq<char>, asked: Option<String>|
        other != name && sends(pairs, other, asked) implies #[trigger] sends(
        more,
        other,
        asked,
    ) by {
        if asked is Some {
            let i = choose|i: int|
                0 <= i < pairs.len() && #[trigger] pairs[i] == (other, asked->0@) && forall|j: int|
                    0 <= j < pairs.len() && (#[trigger] pairs[j]).0 == other ==> j == i;
            assert(more[i] == (other, asked->0@));
        }
    }
}

/// A structured search that asks for a city only sends the city and nothing else: its
/// query is the fixed parameters and the city. A city of plain characters stands in the
/// query as it is, behind `city=`.
pub proof fn lemma_only_city_is_sent(search: StructuredSearch, city: String)
    requires
        search.city == Some(city),
        search.amenity is None,
        search.street is None,
        search.county is None,
        search.state is None,
        search.country is None,
        search.postalcode is None,
    ensures
        parts(search) == seq![("city"@, city@)],
        structured_query_text(form_encoded(parts(search))) == detail_text() + "&"@ + form_pair(
            "city"@,
            city@,
        ),
        (forall|i: int| 0 <= i < city@.len() ==> is_plain(#[trigger] city@[i]))
            ==> structured_query_text(form_encoded(parts(search))) == detail_text() + "&city="@
            + city@,
{
    reveal_strlit("city");
    reveal_strlit("&");
    reveal_strlit("&city=");
    lemma_plain_text_is_sent_as_it_is("city"@);
    if forall|i: int| 0 <= i < city@.len() ==> is_plain(#[trigger] city@[i]) {
        lemma_plain_text_is_sent_as_it_is(city@);
        assert(detail_text() + "&"@ + form_pair("city"@, city@) =~= detail_text() + "&city="@
            + city@);
    }
}

} // verus!
