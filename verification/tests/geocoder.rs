use pi_photo_frame::geocoder::{Geocoder, EMPTY_RESPONSE, ENDPOINT_TEMPLATE};

#[test]
fn the_address_holds_position_and_token() {
    let geocoder = Geocoder::new("KEY".to_string());
    assert_eq!(
        geocoder.request_url("46.77", "23.6"),
        "https://api.mapbox.com/geocoding/v5/mapbox.places/23.6,46.77.json?types=place&language=ro&access_token=KEY"
    );
}

#[test]
fn longitude_comes_before_latitude() {
    let url = Geocoder::new(String::new()).request_url("LAT", "LON");
    assert!(url.contains("/LON,LAT.json"));
    assert!(url.ends_with("access_token="));
    assert!(!url.contains('{'));
}

#[test]
fn the_template_names_its_three_places() {
    for place in ["{lon_dec}", "{lat_dec}", "{access_token}"] {
        assert_eq!(ENDPOINT_TEMPLATE.matches(place).count(), 1);
    }
}

#[test]
fn a_geocoder_without_template_asks_nothing() {
    assert_eq!(Geocoder::default().request_url("1", "2"), "");
}

#[test]
fn the_first_place_is_the_address() {
    let reply = Ok(vec!["Cluj-Napoca".to_string(), "Cluj".to_string()]);
    assert_eq!(Geocoder::read_reply(reply), Ok("Cluj-Napoca".to_string()));
}

#[test]
fn an_empty_answer_has_its_own_reason() {
    assert_eq!(Geocoder::read_reply(Ok(Vec::new())), Err("empty response".to_string()));
    assert_eq!(EMPTY_RESPONSE, "empty response");
}

#[test]
fn a_failed_call_keeps_its_reason() {
    let reply = Err("error sending request".to_string());
    assert_eq!(Geocoder::read_reply(reply), Err("error sending request".to_string()));
}

#[test]
fn every_name_of_the_template_is_replaced_wherever_it_stands() {
    // A token that holds the name of the latitude gets the latitude too.
    let url = Geocoder::new("{lat_dec}".to_string()).request_url("1.5", "2.5");
    assert!(url.contains("/2.5,1.5.json"));
    assert!(url.ends_with("access_token=1.5"));
    // A latitude that holds the name of the longitude gets the longitude.
    let url = Geocoder::new("k".to_string()).request_url("{lon_dec}", "9");
    assert!(url.contains("/9,9.json"));
    // A longitude is put in as it is.
    let url = Geocoder::new("k".to_string()).request_url("1", "{lat_dec}");
    assert!(url.contains("/{lat_dec},1.json"));
}

#[test]
fn the_address_is_head_longitude_latitude_tail_and_token() {
    for (key, latitude, longitude) in [("pk.abc", "46.77", "23.59"), ("", "", ""), ("}", "-0", "1e3")] {
        let url = Geocoder::new(key.to_string()).request_url(latitude, longitude);
        let want = format!(
            "https://api.mapbox.com/geocoding/v5/mapbox.places/{},{}.json?types=place&language=ro&access_token={}",
            longitude, latitude, key
        );
        assert_eq!(url, want);
    }
}
