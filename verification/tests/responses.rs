use idalon::error::ErrorKind;
use idalon::models::fetch::{check_status, on_decoded, on_sent, record_url};

fn transport_failure() -> reqwest::Error {
    reqwest::Client::new()
        .get("no scheme here")
        .build()
        .expect_err("a URL without a scheme is refused")
}

#[test]
fn a_status_under_400_is_accepted() {
    for status in [100u16, 200, 204, 301, 304, 399] {
        assert!(check_status(status).is_ok());
    }
}

#[test]
fn a_status_of_400_or_more_is_a_bad_status() {
    for status in [400u16, 401, 404, 418, 500, 503, 599, u16::MAX] {
        let error = check_status(status).expect_err("the status is refused");
        assert_eq!(error.kind(), ErrorKind::BadStatus);
        assert_eq!(error.get_msg(), "Request returned an error status code.");
    }
}

#[test]
fn a_sent_request_is_judged_by_its_status() {
    assert!(on_sent(Ok(200)).is_ok());
    assert!(on_sent(Ok(399)).is_ok());
    let error = on_sent(Ok(400)).expect_err("the status is refused");
    assert_eq!(error.kind(), ErrorKind::BadStatus);
    let error = on_sent(Ok(500)).expect_err("the status is refused");
    assert_eq!(error.kind(), ErrorKind::BadStatus);
    assert_eq!(error.get_msg(), "Request returned an error status code.");
}

#[test]
fn a_failed_send_is_a_fetch_error() {
    let expected = format!("Failed to fetch URL: {:?}", transport_failure());
    let error = on_sent(Err(transport_failure())).expect_err("nothing was sent");
    assert_eq!(error.kind(), ErrorKind::Fetch);
    assert_eq!(error.get_msg(), expected);
}

#[test]
fn a_decoded_value_is_handed_on() {
    let outcome = on_decoded(Ok(vec![1u8, 2, 3]));
    assert_eq!(outcome.ok(), Some(vec![1u8, 2, 3]));
}

#[test]
fn a_malformed_body_is_a_parse_error() {
    let expected = format!("Failed to parse JSON from URL: {:?}", transport_failure());
    let outcome = on_decoded::<u8>(Err(transport_failure()));
    let error = outcome.expect_err("the body was malformed");
    assert_eq!(error.kind(), ErrorKind::Parse);
    assert_ne!(error.kind(), ErrorKind::Fetch);
    assert_eq!(error.get_msg(), expected);
}

#[test]
fn a_record_lies_under_its_listing() {
    let url = record_url(
        "https://api.idalon.com/v2/nights",
        "d4bad0ba-5b5a-412b-a75a-e92e24c4f908",
    );
    assert_eq!(
        url.as_deref(),
        Some("https://api.idalon.com/v2/nights/d4bad0ba-5b5a-412b-a75a-e92e24c4f908")
    );
    let url = record_url("https://api.idalon.com/v2/runs", "7");
    assert_eq!(url.as_deref(), Some("https://api.idalon.com/v2/runs/7"));
}

#[test]
fn a_record_address_is_what_the_parser_makes_of_it() {
    let url = record_url("HTTPS://API.IDALON.COM/v2/nights", "a b");
    assert_eq!(url.as_deref(), Some("https://api.idalon.com/v2/nights/a%20b"));
    let url = record_url("https://api.idalon.com/v2/nights", "../runs");
    assert_eq!(url.as_deref(), Some("https://api.idalon.com/v2/runs"));
}

#[test]
fn a_base_without_a_scheme_gives_no_address() {
    assert_eq!(record_url("api.idalon.com/v2/nights", "1"), None);
    assert_eq!(record_url("", ""), None);
}

#[test]
fn the_addresses_of_the_listings_are_urls_as_they_stand() {
    for base in [
        idalon::models::night::resource_url(),
        idalon::models::run::resource_url(),
    ] {
        let url = record_url(base.as_str(), "x").expect("the listing has an address");
        assert_eq!(url, format!("{}/x", base));
    }
}
