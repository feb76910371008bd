use nominatim::client::DEFAULT_BASE_URL;
use nominatim::client::DEFAULT_TIMEOUT_MS;
use nominatim::header::mk_headers;
use nominatim::Client;
use nominatim::Error;
use nominatim::IdentificationMethod;
use nominatim::StructuredSearch;

fn client() -> Client {
    Client::new(IdentificationMethod::from_user_agent("Example Application Name"), None).unwrap()
}

fn client_at(base: &str) -> Client {
    Client::new(IdentificationMethod::from_referer("https://example.org/app"), Some(base)).unwrap()
}

#[test]
fn new_client_has_the_defaults() {
    let c = client();
    assert_eq!(c.base_url(), "https://nominatim.openstreetmap.org/");
    assert_eq!(c.base_url(), DEFAULT_BASE_URL);
    assert_eq!(c.timeout_ms(), 10_000);
    assert_eq!(DEFAULT_TIMEOUT_MS, 10_000);
    assert_eq!(
        c.ident(),
        &IdentificationMethod::UserAgent("Example Application Name".to_string())
    );
}

#[test]
fn new_client_takes_another_server() {
    let c = client_at("http://localhost:8080/nominatim/");
    assert_eq!(c.base_url(), "http://localhost:8080/nominatim/");
}

#[test]
fn new_client_normalizes_the_base_url() {
    let c = client_at("HTTPS://Example.COM");
    assert_eq!(c.base_url(), "https://example.com/");
}

#[test]
fn a_relative_base_url_is_refused() {
    let r = Client::new(IdentificationMethod::from_referer("https://example.org"), Some("nominatim"));
    assert!(matches!(r, Err(Error::InvalidUrl(url::ParseError::RelativeUrlWithoutBase))));
}

#[test]
fn an_empty_base_url_is_refused() {
    let r = Client::new(IdentificationMethod::from_referer("https://example.org"), Some(""));
    assert!(matches!(r, Err(Error::InvalidUrl(_))));
}

#[test]
fn set_base_url_replaces_the_server() {
    let mut c = client();
    assert_eq!(c.set_base_url("https://geo.example.net/api/"), Ok(()));
    assert_eq!(c.base_url(), "https://geo.example.net/api/");
    assert_eq!(c.timeout_ms(), 10_000);
    let request = c.status().unwrap();
    assert_eq!(request.url, "https://geo.example.net/api/status.php?format=json");
}

#[test]
fn set_base_url_refuses_what_is_no_url_and_changes_nothing() {
    let mut c = client();
    let r = c.set_base_url("not a url");
    assert!(matches!(r, Err(Error::InvalidUrl(_))));
    assert_eq!(c.base_url(), "https://nominatim.openstreetmap.org/");
    assert_eq!(
        c.ident(),
        &IdentificationMethod::UserAgent("Example Application Name".to_string())
    );
}

#[test]
fn set_ident_replaces_the_header() {
    let mut c = client();
    c.set_ident(IdentificationMethod::from_referer("https://example.org/"));
    let request = c.status().unwrap();
    assert_eq!(request.headers.len(), 1);
    assert_eq!(request.headers[0].name, "Referer");
    assert_eq!(request.headers[0].value, "https://example.org/");
    assert_eq!(c.base_url(), "https://nominatim.openstreetmap.org/");
}

#[test]
fn set_timeout_reaches_the_requests() {
    let mut c = client();
    c.set_timeout(2_500);
    assert_eq!(c.timeout_ms(), 2_500);
    assert_eq!(c.status().unwrap().timeout_ms, 2_500);
    assert_eq!(c.search("x").unwrap().timeout_ms, 2_500);
}

#[test]
fn mk_headers_gives_one_header() {
    let hs = mk_headers(&IdentificationMethod::from_user_agent("agent/1.0")).unwrap();
    assert_eq!(hs.len(), 1);
    assert_eq!(hs[0].name, "User-Agent");
    assert_eq!(hs[0].value, "agent/1.0");
    let hs = mk_headers(&IdentificationMethod::from_referer("https://example.org")).unwrap();
    assert_eq!(hs.len(), 1);
    assert_eq!(hs[0].name, "Referer");
    assert_eq!(hs[0].value, "https://example.org");
}

#[test]
fn mk_headers_takes_what_a_header_can_carry() {
    for value in ["", " ", "a\tb", "~", "Müller's app", "東京", "\u{80}", "\u{ff}"] {
        let hs = mk_headers(&IdentificationMethod::from_user_agent(value)).unwrap();
        assert_eq!(hs[0].value, value);
        assert!(reqwest::header::HeaderValue::from_str(value).is_ok());
    }
}

#[test]
fn mk_headers_refuses_control_characters() {
    for value in ["a\nb", "\r", "\u{0}", "x\u{1f}", "\u{7f}", "agent\u{b}"] {
        assert_eq!(
            mk_headers(&IdentificationMethod::from_user_agent(value)),
            Err(Error::InvalidHeader)
        );
        assert_eq!(
            mk_headers(&IdentificationMethod::from_referer(value)),
            Err(Error::InvalidHeader)
        );
        assert!(reqwest::header::HeaderValue::from_str(value).is_err());
    }
}

#[test]
fn no_request_is_issued_with_an_identification_that_cannot_be_sent() {
    let c = Client::new(IdentificationMethod::from_user_agent("two\nlines"), None).unwrap();
    assert_eq!(c.status(), Err(Error::InvalidHeader));
    assert_eq!(c.search("x"), Err(Error::InvalidHeader));
    assert_eq!(c.search_structured(StructuredSearch::default()), Err(Error::InvalidHeader));
    assert_eq!(c.reverse("1", "2", None), Err(Error::InvalidHeader));
    assert_eq!(c.lookup(vec!["N1"]), Err(Error::InvalidHeader));
}

#[test]
fn a_missing_endpoint_is_reported_before_the_identification() {
    let c = Client::new(
        IdentificationMethod::from_user_agent("two\nlines"),
        Some("mailto:someone@example.org"),
    )
    .unwrap();
    assert!(matches!(c.status(), Err(Error::InvalidUrl(_))));
    assert_eq!(c.search("x"), Err(Error::InvalidHeader));
}

#[test]
fn every_request_carries_the_identification() {
    let c = client();
    let requests = vec![
        c.status().unwrap(),
        c.search("berlin").unwrap(),
        c.search_structured(StructuredSearch::default()).unwrap(),
        c.reverse("52.5", "13.4", None).unwrap(),
        c.lookup(vec!["R146656"]).unwrap(),
    ];
    for request in requests {
        assert_eq!(request.headers.len(), 1);
        assert_eq!(request.headers[0].name, "User-Agent");
        assert_eq!(request.headers[0].value, "Example Application Name");
        assert_eq!(request.timeout_ms, 10_000);
    }
}

#[test]
fn status_request_asks_for_json() {
    let request = client().status().unwrap();
    assert_eq!(request.url, "https://nominatim.openstreetmap.org/status.php?format=json");
}

#[test]
fn status_request_stands_below_the_base() {
    let request = client_at("https://example.net/a/b/").status().unwrap();
    assert_eq!(request.url, "https://example.net/a/b/status.php?format=json");
    let request = client_at("https://example.net/a/b").status().unwrap();
    assert_eq!(request.url, "https://example.net/a/b/status.php?format=json");
    let request = client_at("https://example.net").status().unwrap();
    assert_eq!(request.url, "https://example.net/status.php?format=json");
}

#[test]
fn endpoints_stand_below_a_base_without_a_trailing_slash() {
    let mut c = client();
    assert_eq!(c.set_base_url("http://localhost:8080/nominatim"), Ok(()));
    assert_eq!(c.base_url(), "http://localhost:8080/nominatim");
    assert_eq!(
        c.status().unwrap().url,
        "http://localhost:8080/nominatim/status.php?format=json"
    );
    assert_eq!(
        c.reverse("1", "2", None).unwrap().url,
        "http://localhost:8080/nominatim/reverse?lat=1&lon=2&format=json&addressdetails=1&extratags=1"
    );
    assert_eq!(
        c.lookup(vec!["N1"]).unwrap().url,
        "http://localhost:8080/nominatim/lookup?osm_ids=N1&format=json&addressdetails=1&extratags=1"
    );
    assert_eq!(
        c.search("x").unwrap().url,
        "http://localhost:8080/nominatim?q=x&format=json&addressdetails=1&extratags=1"
    );
}

#[test]
fn endpoints_leave_the_query_and_the_fragment_of_the_base() {
    let c = client_at("https://example.net/api?key=1#top");
    assert_eq!(c.status().unwrap().url, "https://example.net/api/status.php?format=json");
    let c = client_at("https://example.net/api/?key=1");
    assert_eq!(
        c.lookup(vec!["W2"]).unwrap().url,
        "https://example.net/api/lookup?osm_ids=W2&format=json&addressdetails=1&extratags=1"
    );
}

#[test]
fn endpoints_stand_below_a_base_of_any_scheme() {
    let c = client_at("unix://socket");
    assert_eq!(c.base_url(), "unix://socket");
    assert_eq!(c.status().unwrap().url, "unix://socket/status.php?format=json");
    let c = client_at("app:/srv/geo");
    assert_eq!(c.status().unwrap().url, "app:/srv/geo/status.php?format=json");
    let c = client_at("app:/.//srv");
    assert_eq!(c.base_url(), "app:/.//srv");
    assert_eq!(c.status().unwrap().url, "app:/.//srv/status.php?format=json");
    let c = client_at("file:///C:");
    assert_eq!(c.lookup(vec!["N1"]).unwrap().url,
        "file:///C:/lookup?osm_ids=N1&format=json&addressdetails=1&extratags=1");
}

#[test]
fn endpoints_keep_an_escaped_path() {
    let c = client_at("https://example.net/my api/v1");
    assert_eq!(c.base_url(), "https://example.net/my%20api/v1");
    assert_eq!(c.status().unwrap().url, "https://example.net/my%20api/v1/status.php?format=json");
}

#[test]
fn an_endpoint_needs_a_base_that_can_be_one() {
    let c = client_at("mailto:someone@example.org");
    assert!(matches!(
        c.status(),
        Err(Error::InvalidUrl(url::ParseError::RelativeUrlWithCannotBeABaseBase))
    ));
    assert!(matches!(c.reverse("1", "2", None), Err(Error::InvalidUrl(_))));
    assert!(matches!(c.lookup(vec!["N1"]), Err(Error::InvalidUrl(_))));
}

#[test]
fn search_request_escapes_the_query() {
    let request = client().search("statue of liberty").unwrap();
    assert_eq!(
        request.url,
        "https://nominatim.openstreetmap.org/?q=statue%20of%20liberty&format=json&addressdetails=1&extratags=1"
    );
}

#[test]
fn search_request_escapes_what_would_split_the_query() {
    let request = client().search("a&b=c#d?e/f+g").unwrap();
    assert_eq!(
        request.url,
        "https://nominatim.openstreetmap.org/?q=a%26b%3Dc%23d%3Fe%2Ff%2Bg&format=json&addressdetails=1&extratags=1"
    );
}

#[test]
fn search_request_escapes_utf8_bytes() {
    let request = client().search("Köln").unwrap();
    assert_eq!(
        request.url,
        "https://nominatim.openstreetmap.org/?q=K%C3%B6ln&format=json&addressdetails=1&extratags=1"
    );
}

#[test]
fn search_request_keeps_unreserved_characters() {
    let request = client().search("Az09-_.~").unwrap();
    assert_eq!(
        request.url,
        "https://nominatim.openstreetmap.org/?q=Az09-_.~&format=json&addressdetails=1&extratags=1"
    );
}

#[test]
fn search_request_with_an_empty_query() {
    let request = client().search("").unwrap();
    assert_eq!(
        request.url,
        "https://nominatim.openstreetmap.org/?q=&format=json&addressdetails=1&extratags=1"
    );
}

#[test]
fn search_request_replaces_the_query_of_the_base() {
    let request = client_at("https://example.net/search?old=1#frag").search("x").unwrap();
    assert_eq!(
        request.url,
        "https://example.net/search?q=x&format=json&addressdetails=1&extratags=1#frag"
    );
}

#[test]
fn structured_search_sends_only_the_parts_asked_for() {
    let mut params = StructuredSearch::default();
    params.city = Some("Paris".to_string());
    let request = client().search_structured(params).unwrap();
    assert_eq!(
        request.url,
        "https://nominatim.openstreetmap.org/?format=json&addressdetails=1&extratags=1&city=Paris"
    );
    assert!(request.url.contains("city=Paris"));
    let query = request.url.split('?').nth(1).unwrap();
    for other in ["amenity", "street", "county", "state", "country", "postalcode"] {
        assert!(!query.contains(other));
    }
}

#[test]
fn structured_search_sends_the_parts_in_order() {
    let params = StructuredSearch {
        amenity: Some("pub".to_string()),
        street: Some("135 Pilkington Avenue".to_string()),
        city: Some("Birmingham".to_string()),
        county: Some("West Midlands".to_string()),
        state: Some("England".to_string()),
        country: Some("United Kingdom".to_string()),
        postalcode: Some("B72 1LH".to_string()),
    };
    let request = client().search_structured(params).unwrap();
    assert_eq!(
        request.url,
        "https://nominatim.openstreetmap.org/?format=json&addressdetails=1&extratags=1&amenity=pub&street=135+Pilkington+Avenue&city=Birmingham&county=West+Midlands&state=England&country=United+Kingdom&postalcode=B72+1LH"
    );
}

#[test]
fn structured_search_without_parts_sends_the_fixed_parameters() {
    let request = client().search_structured(StructuredSearch::default()).unwrap();
    assert_eq!(
        request.url,
        "https://nominatim.openstreetmap.org/?format=json&addressdetails=1&extratags=1"
    );
}

#[test]
fn structured_search_escapes_form_values() {
    let mut params = StructuredSearch::default();
    params.street = Some("Rue de l'Église & Cie*".to_string());
    let request = client().search_structured(params).unwrap();
    assert_eq!(
        request.url,
        "https://nominatim.openstreetmap.org/?format=json&addressdetails=1&extratags=1&street=Rue+de+l%27%C3%89glise+%26+Cie*"
    );
}

#[test]
fn reverse_request_strips_blanks() {
    let request = client().reverse(" 40.689249", "-74.044500 ", Some(18)).unwrap();
    assert_eq!(
        request.url,
        "https://nominatim.openstreetmap.org/reverse?lat=40.689249&lon=-74.044500&format=json&addressdetails=1&extratags=1&zoom=18"
    );
}

#[test]
fn reverse_request_without_zoom() {
    let request = client().reverse("40.689249", "-74.044500", None).unwrap();
    assert_eq!(
        request.url,
        "https://nominatim.openstreetmap.org/reverse?lat=40.689249&lon=-74.044500&format=json&addressdetails=1&extratags=1"
    );
}

#[test]
fn reverse_request_does_not_reformat_coordinates() {
    let request = client().reverse("040.6892490000000001", "-0074.0445000", Some(0)).unwrap();
    assert_eq!(
        request.url,
        "https://nominatim.openstreetmap.org/reverse?lat=040.6892490000000001&lon=-0074.0445000&format=json&addressdetails=1&extratags=1&zoom=0"
    );
}

#[test]
fn reverse_request_strips_tabs_and_line_breaks() {
    let request = client().reverse("4 0.\t6\n", "\r-7 4", Some(255)).unwrap();
    assert_eq!(
        request.url,
        "https://nominatim.openstreetmap.org/reverse?lat=40.6&lon=-74&format=json&addressdetails=1&extratags=1&zoom=255"
    );
}

#[test]
fn lookup_request_joins_the_ids() {
    let request = client().lookup(vec!["R146656", "W50637691"]).unwrap();
    assert_eq!(
        request.url,
        "https://nominatim.openstreetmap.org/lookup?osm_ids=R146656,W50637691&format=json&addressdetails=1&extratags=1"
    );
    assert!(request.url.contains("osm_ids=R146656,W50637691"));
}

#[test]
fn lookup_request_with_one_id_and_with_none() {
    let request = client().lookup(vec!["N240109189"]).unwrap();
    assert_eq!(
        request.url,
        "https://nominatim.openstreetmap.org/lookup?osm_ids=N240109189&format=json&addressdetails=1&extratags=1"
    );
    let request = client().lookup(vec![]).unwrap();
    assert_eq!(
        request.url,
        "https://nominatim.openstreetmap.org/lookup?osm_ids=&format=json&addressdetails=1&extratags=1"
    );
}

#[test]
fn lookup_request_does_not_check_the_ids() {
    let request = client().lookup(vec!["", "x y", "Z"]).unwrap();
    assert_eq!(
        request.url,
        "https://nominatim.openstreetmap.org/lookup?osm_ids=,x%20y,Z&format=json&addressdetails=1&extratags=1"
    );
}
