use nominatim::query::lookup_query;
use nominatim::query::parameters;
use nominatim::query::reverse_query;
use nominatim::query::search_query;
use nominatim::query::status_query;
use nominatim::query::structured_query;
use nominatim::query::structured_query_from;
use nominatim::uri::room_for;
use nominatim::uri::room_for_path;
use nominatim::StructuredSearch;

#[test]
fn status_query_is_fixed() {
    assert_eq!(status_query(), "format=json");
}

#[test]
fn search_query_percent_encodes() {
    assert_eq!(search_query("a b"), "q=a%20b&format=json&addressdetails=1&extratags=1");
    assert_eq!(search_query("100%"), "q=100%25&format=json&addressdetails=1&extratags=1");
    assert_eq!(
        search_query("\u{0}\u{7f}\u{ff}"),
        "q=%00%7F%C3%BF&format=json&addressdetails=1&extratags=1"
    );
    assert_eq!(
        search_query("東京*"),
        "q=%E6%9D%B1%E4%BA%AC%2A&format=json&addressdetails=1&extratags=1"
    );
}

#[test]
fn parameters_hold_what_is_asked_for() {
    let search = StructuredSearch::default();
    assert_eq!(parameters(&search), Vec::<(&str, &str)>::new());
    let search = StructuredSearch {
        amenity: None,
        street: Some(String::new()),
        city: Some("Paris".to_string()),
        county: None,
        state: None,
        country: Some("France".to_string()),
        postalcode: None,
    };
    assert_eq!(
        parameters(&search),
        vec![("street", ""), ("city", "Paris"), ("country", "France")]
    );
}

#[test]
fn default_search_asks_for_nothing() {
    let search = StructuredSearch::default();
    assert_eq!(
        search,
        StructuredSearch {
            amenity: None,
            street: None,
            city: None,
            county: None,
            state: None,
            country: None,
            postalcode: None,
        }
    );
}

#[test]
fn structured_query_form_encodes() {
    let mut search = StructuredSearch::default();
    search.city = Some("Paris".to_string());
    assert_eq!(
        structured_query(&search),
        "format=json&addressdetails=1&extratags=1&city=Paris"
    );
    search.street = Some("a b~c".to_string());
    assert_eq!(
        structured_query(&search),
        "format=json&addressdetails=1&extratags=1&street=a+b%7Ec&city=Paris"
    );
    search.postalcode = Some(String::new());
    assert_eq!(
        structured_query(&search),
        "format=json&addressdetails=1&extratags=1&street=a+b%7Ec&city=Paris&postalcode="
    );
}

#[test]
fn structured_query_takes_any_text() {
    let mut search = StructuredSearch::default();
    search.county = Some("\u{0}\n=&\u{e9}%+".to_string());
    search.state = Some(String::new());
    assert_eq!(
        structured_query(&search),
        "format=json&addressdetails=1&extratags=1&county=%00%0A%3D%26%C3%A9%25%2B&state="
    );
}

#[test]
fn structured_query_sends_a_part_exactly_where_it_is_asked_for() {
    let names = ["amenity", "street", "city", "county", "state", "country", "postalcode"];
    for set in 0..128u32 {
        let value = |i: usize| if set & (1 << i) != 0 { Some(format!("v{}", i)) } else { None };
        let search = StructuredSearch {
            amenity: value(0),
            street: value(1),
            city: value(2),
            county: value(3),
            state: value(4),
            country: value(5),
            postalcode: value(6),
        };
        let query = structured_query(&search);
        let sent: Vec<&str> = query.split('&').skip(3).collect();
        let mut expected = Vec::new();
        for (i, name) in names.iter().enumerate() {
            if set & (1 << i) != 0 {
                expected.push(format!("{}=v{}", name, i));
            }
        }
        assert_eq!(sent, expected);
        assert!(query.starts_with("format=json&addressdetails=1&extratags=1"));
    }
}

#[test]
fn structured_query_from_takes_what_the_encoder_made() {
    assert_eq!(
        structured_query_from("city=Paris"),
        "format=json&addressdetails=1&extratags=1&city=Paris"
    );
    assert_eq!(structured_query_from(""), "format=json&addressdetails=1&extratags=1");
}

#[test]
fn reverse_query_holds_the_coordinates() {
    assert_eq!(
        reverse_query("40.689249", "-74.044500", None),
        "lat=40.689249&lon=-74.044500&format=json&addressdetails=1&extratags=1"
    );
    assert_eq!(
        reverse_query(" 1 ", "\t2\n", Some(3)),
        "lat=1&lon=2&format=json&addressdetails=1&extratags=1&zoom=3"
    );
    assert_eq!(
        reverse_query("", "", Some(100)),
        "lat=&lon=&format=json&addressdetails=1&extratags=1&zoom=100"
    );
}

#[test]
fn lookup_query_holds_the_ids() {
    assert_eq!(
        lookup_query(&vec!["R146656", "W50637691"]),
        "osm_ids=R146656,W50637691&format=json&addressdetails=1&extratags=1"
    );
    assert_eq!(
        lookup_query(&vec![]),
        "osm_ids=&format=json&addressdetails=1&extratags=1"
    );
}

#[test]
fn room_for_path_counts_three_bytes_for_each_of_the_path() {
    assert!(room_for_path(0, 0));
    assert!(room_for_path(30, 11));
    assert!(room_for_path(0xffff_fffb, 0));
    assert!(!room_for_path(0xffff_fffc, 0));
    assert!(room_for_path(2, 0x5555_5553));
    assert!(!room_for_path(3, 0x5555_5553));
    assert!(!room_for_path(0, 0x5555_5554));
    assert!(!room_for_path(usize::MAX, usize::MAX));
}

#[test]
fn room_for_counts_three_bytes_for_each_of_the_query() {
    assert!(room_for(0, 0));
    assert!(room_for(36, 11));
    assert!(room_for(0xffff_fffe, 0));
    assert!(!room_for(0xffff_ffff, 0));
    assert!(room_for(2, 0x5555_5554));
    assert!(!room_for(3, 0x5555_5554));
    assert!(!room_for(0, 0x5555_5555));
    assert!(!room_for(36, 0x5555_5556));
    assert!(!room_for(usize::MAX, usize::MAX));
}
