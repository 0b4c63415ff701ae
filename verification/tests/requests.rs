use openweather::api::OpenWeatherClient;
use openweather::decimal::decimal_text;
use openweather::request::{UnsentRequest, MAX_REQUEST_SIZE};
use openweather::units::Units;

fn pair(name: &str, value: &str) -> (String, String) {
    (String::from(name), String::from(value))
}

fn metric_client() -> OpenWeatherClient {
    OpenWeatherClient::new(String::from("K"), Units::Metric)
}

#[test]
fn new_keeps_the_units() {
    assert_eq!(metric_client().units, Units::Metric);
    let client = OpenWeatherClient::new(String::new(), Units::Standard);
    assert_eq!(client.units, Units::Standard);
}

#[test]
fn base_url_is_the_service_root() {
    assert_eq!(
        OpenWeatherClient::API_BASE_URL,
        "https://api.openweathermap.org/data/2.5/"
    );
}

#[test]
fn build_request_puts_key_and_units_first() {
    let extra = vec![pair("lat", "37.766602"), pair("lon", "-122.45108")];
    let request = metric_client().build_request("weather", &extra);
    assert_eq!(request.address, "https://api.openweathermap.org/data/2.5/weather");
    assert_eq!(
        request.params,
        vec![
            pair("appid", "K"),
            pair("units", "metric"),
            pair("lat", "37.766602"),
            pair("lon", "-122.45108"),
        ]
    );
}

#[test]
fn build_request_query_string() {
    let extra = vec![pair("lat", "37.766602"), pair("lon", "-122.45108")];
    let url = metric_client().build_request("weather", &extra).url();
    assert_eq!(
        url,
        Some(String::from(
            "https://api.openweathermap.org/data/2.5/weather?appid=K&units=metric&lat=37.766602&lon=-122.45108"
        ))
    );
}

#[test]
fn build_request_without_extra_params() {
    let client = OpenWeatherClient::new(String::from("secret"), Units::Imperial);
    let request = client.build_request("forecast", &Vec::new());
    assert_eq!(request.address, "https://api.openweathermap.org/data/2.5/forecast");
    assert_eq!(request.params, vec![pair("appid", "secret"), pair("units", "imperial")]);
    assert_eq!(
        request.url(),
        Some(String::from(
            "https://api.openweathermap.org/data/2.5/forecast?appid=secret&units=imperial"
        ))
    );
}

#[test]
fn build_request_keeps_repeated_names_in_order() {
    let extra = vec![pair("units", "late"), pair("id", "1"), pair("id", "2")];
    let request = metric_client().build_request("weather", &extra);
    assert_eq!(
        request.params,
        vec![
            pair("appid", "K"),
            pair("units", "metric"),
            pair("units", "late"),
            pair("id", "1"),
            pair("id", "2"),
        ]
    );
}

#[test]
fn building_twice_gives_the_same_request() {
    let client = metric_client();
    let extra = vec![pair("id", "5391997")];
    assert_eq!(
        client.build_request("weather", &extra),
        client.build_request("weather", &extra)
    );
}

#[test]
fn weather_by_coordinates_request_names_lat_then_lon() {
    let request = metric_client().weather_by_coordinates_request("37.766602", "-122.45108");
    assert_eq!(request.address, "https://api.openweathermap.org/data/2.5/weather");
    assert_eq!(
        request.params,
        vec![
            pair("appid", "K"),
            pair("units", "metric"),
            pair("lat", "37.766602"),
            pair("lon", "-122.45108"),
        ]
    );
}

#[test]
fn coordinates_are_sent_as_given() {
    let request = metric_client().weather_by_coordinates_request("1000", "NaN");
    assert_eq!(request.params[2], pair("lat", "1000"));
    assert_eq!(request.params[3], pair("lon", "NaN"));
}

#[test]
fn weather_by_city_id_request_names_the_id() {
    let request = metric_client().weather_by_city_id_request(1850147);
    assert_eq!(request.address, "https://api.openweathermap.org/data/2.5/weather");
    assert_eq!(
        request.params,
        vec![pair("appid", "K"), pair("units", "metric"), pair("id", "1850147")]
    );
    assert_eq!(
        request.url(),
        Some(String::from(
            "https://api.openweathermap.org/data/2.5/weather?appid=K&units=metric&id=1850147"
        ))
    );
}

#[test]
fn city_id_at_the_ends_of_its_range() {
    let client = metric_client();
    assert_eq!(client.weather_by_city_id_request(0).params[2], pair("id", "0"));
    assert_eq!(
        client.weather_by_city_id_request(u32::MAX).params[2],
        pair("id", "4294967295")
    );
}

#[test]
fn forecast5_request_with_a_count() {
    let request = metric_client().forecast5_request("37.766602", "-122.45108", Some(1));
    assert_eq!(request.address, "https://api.openweathermap.org/data/2.5/forecast");
    assert_eq!(
        request.params,
        vec![
            pair("appid", "K"),
            pair("units", "metric"),
            pair("lat", "37.766602"),
            pair("lon", "-122.45108"),
            pair("cnt", "1"),
        ]
    );
}

#[test]
fn forecast5_request_without_a_count() {
    let request = metric_client().forecast5_request("37.766602", "-122.45108", None);
    assert_eq!(
        request.params,
        vec![
            pair("appid", "K"),
            pair("units", "metric"),
            pair("lat", "37.766602"),
            pair("lon", "-122.45108"),
        ]
    );
}

#[test]
fn forecast5_request_sends_any_count() {
    let client = metric_client();
    assert_eq!(client.forecast5_request("0", "0", Some(0)).params[4], pair("cnt", "0"));
    assert_eq!(client.forecast5_request("0", "0", Some(40)).params[4], pair("cnt", "40"));
}

#[test]
fn decimal_text_of_some_numbers() {
    assert_eq!(decimal_text(0), "0");
    assert_eq!(decimal_text(9), "9");
    assert_eq!(decimal_text(10), "10");
    assert_eq!(decimal_text(109), "109");
    assert_eq!(decimal_text(5391997), "5391997");
    assert_eq!(decimal_text(u64::MAX), "18446744073709551615");
}

#[test]
fn url_escapes_what_a_query_cannot_hold() {
    let client = OpenWeatherClient::new(String::from("a b&c=d"), Units::Standard);
    let request = client.build_request("weather", &vec![pair("q", "München/é")]);
    assert_eq!(
        request.url(),
        Some(String::from(
            "https://api.openweathermap.org/data/2.5/weather?appid=a+b%26c%3Dd&units=standard&q=M%C3%BCnchen%2F%C3%A9"
        ))
    );
}

#[test]
fn url_of_an_address_that_is_none() {
    let request = UnsentRequest {
        address: String::from("data/2.5/weather"),
        params: vec![pair("appid", "K")],
    };
    assert_eq!(request.url(), None);
}

#[test]
fn request_size_counts_characters_and_parameters() {
    let address = "a".repeat(MAX_REQUEST_SIZE - 7);
    let request = UnsentRequest {
        address: address.clone(),
        params: vec![pair("é", "ü"), pair("x", "")],
    };
    assert!(request.fits());
    let request = UnsentRequest { address, params: vec![pair("é", "ü"), pair("x", "y")] };
    assert!(!request.fits());
}

#[test]
fn request_of_the_largest_size_fits() {
    let request = UnsentRequest { address: "a".repeat(MAX_REQUEST_SIZE), params: Vec::new() };
    assert!(request.fits());
    let request = UnsentRequest { address: "a".repeat(MAX_REQUEST_SIZE + 1), params: Vec::new() };
    assert!(!request.fits());
}

#[test]
fn request_with_too_many_parameters_does_not_fit() {
    let params = vec![pair("", ""); MAX_REQUEST_SIZE / 2];
    let request = UnsentRequest { address: String::new(), params };
    assert!(request.fits());
    let params = vec![pair("", ""); MAX_REQUEST_SIZE / 2 + 1];
    let request = UnsentRequest { address: String::new(), params };
    assert!(!request.fits());
}

#[test]
fn url_of_a_request_that_does_not_fit_is_none() {
    let value = "v".repeat(MAX_REQUEST_SIZE);
    let request = metric_client().build_request("weather", &vec![pair("q", &value)]);
    assert!(!request.fits());
    assert_eq!(request.url(), None);
}

#[test]
fn url_of_an_ordinary_request_is_some() {
    let request = metric_client().forecast5_request("37.766602", "-122.45108", Some(40));
    assert!(request.fits());
    assert!(request.url().is_some());
}
