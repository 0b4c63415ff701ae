use openweather::api::OpenWeatherClient;
use openweather::error::{ApiError, DecodeError, TransportFailure};
use openweather::json::{Json, Number};
use openweather::models::{CurrentWeatherPayload, Forecast5Payload};
use openweather::response::{check_status, read_reply, Reply};
use openweather::units::Units;

const SAN_FRANCISCO_NOW: &str = r#"{
    "coord": {"lon": -122.4511, "lat": 37.7666},
    "weather": [{"id": 801, "main": "Clouds", "description": "few clouds", "icon": "02d"}],
    "base": "stations",
    "main": {"temp": 14.52, "feels_like": 13.9, "temp_min": 12.2, "temp_max": 17.03,
             "pressure": 1017, "humidity": 72},
    "visibility": 10000,
    "wind": {"speed": 4.63, "deg": 270},
    "clouds": {"all": 20},
    "dt": 1650000000,
    "sys": {"type": 2, "id": 2017837, "country": "US", "sunrise": 1649943000,
            "sunset": 1649990500},
    "timezone": -25200,
    "id": 5391997,
    "name": "San Francisco County",
    "cod": 200
}"#;

const TOKYO_NOW: &str = r#"{
    "coord": {"lon": 139.6917, "lat": 35.6895},
    "weather": [{"id": 803, "main": "Clouds", "description": "broken clouds", "icon": "04n"}],
    "base": "stations",
    "main": {"temp": 11.6, "feels_like": 10.9, "temp_min": 9.8, "temp_max": 12.9,
             "pressure": 1021, "humidity": 80},
    "visibility": 10000,
    "wind": {"speed": 3.09, "deg": 20},
    "clouds": {"all": 75},
    "dt": 1650034800,
    "sys": {"type": 2, "id": 2038398, "country": "JP", "sunrise": 1649966400,
            "sunset": 1650013800},
    "timezone": 32400,
    "id": 1850147,
    "name": "Tokyo",
    "cod": 200
}"#;

const SAN_FRANCISCO_NEXT: &str = r#"{
    "cod": "200",
    "message": 0,
    "cnt": 1,
    "list": [{
        "dt": 1650002400,
        "main": {"temp": 13.8, "feels_like": 13.1, "temp_min": 13.2, "temp_max": 13.8,
                 "pressure": 1017, "sea_level": 1017, "grnd_level": 1010, "humidity": 72,
                 "temp_kf": 0.6},
        "weather": [{"id": 500, "main": "Rain", "description": "light rain", "icon": "10n"}],
        "clouds": {"all": 75},
        "wind": {"speed": 5.1, "deg": 265, "gust": 8.3},
        "visibility": 10000,
        "pop": 0.32,
        "rain": {"3h": 0.25},
        "sys": {"pod": "n"},
        "dt_txt": "2022-04-15 06:00:00"
    }],
    "city": {"id": 5391997, "name": "San Francisco County",
             "coord": {"lat": 37.7666, "lon": -122.4511}, "country": "US",
             "population": 805235, "timezone": -25200, "sunrise": 1649943000,
             "sunset": 1649990500}
}"#;

const INVALID_KEY: &str = r#"{"cod": 401, "message": "Invalid API key."}"#;

fn number(n: &serde_json::Number) -> Number {
    if let Some(u) = n.as_u64() {
        Number::Unsigned(u)
    } else if let Some(i) = n.as_i64() {
        Number::Signed(i)
    } else {
        Number::Real(n.as_f64().unwrap().to_bits())
    }
}

fn lift(value: serde_json::Value) -> Json {
    match value {
        serde_json::Value::Null => Json::Null,
        serde_json::Value::Bool(b) => Json::Bool(b),
        serde_json::Value::Number(n) => Json::Number(number(&n)),
        serde_json::Value::String(s) => Json::Text(s),
        serde_json::Value::Array(items) => Json::Array(items.into_iter().map(lift).collect()),
        serde_json::Value::Object(members) => {
            Json::Object(members.into_iter().map(|(k, v)| (k, lift(v))).collect())
        }
    }
}

fn answered(status: u16, body: &str) -> Reply {
    let body = match serde_json::from_str::<serde_json::Value>(body) {
        Ok(value) => Ok(lift(value)),
        Err(error) => Err(error.to_string()),
    };
    Reply::Answered { status, body }
}

fn status_failure(status: u16) -> ApiError {
    ApiError::Transport(TransportFailure::Status(status))
}

#[test]
fn current_get_weather_by_coordinates() {
    let client = OpenWeatherClient::new(String::from("token"), Units::Metric);
    let request = client.weather_by_coordinates_request("37.766602", "-122.45108");
    assert_eq!(
        request.url().unwrap(),
        "https://api.openweathermap.org/data/2.5/weather?appid=token&units=metric&lat=37.766602&lon=-122.45108"
    );
    let sf_weather =
        read_reply::<CurrentWeatherPayload>(&answered(200, SAN_FRANCISCO_NOW)).unwrap();
    assert_eq!(sf_weather.city_id, 5391997);
}

#[test]
fn weather_get_weather_by_coordinates() {
    let client = OpenWeatherClient::new(String::from("token"), Units::Metric);
    let request = client.weather_by_coordinates_request("37.766602", "-122.45108");
    assert_eq!(request.params[2], (String::from("lat"), String::from("37.766602")));
    assert_eq!(request.params[3], (String::from("lon"), String::from("-122.45108")));
    let sf_weather =
        read_reply::<CurrentWeatherPayload>(&answered(200, SAN_FRANCISCO_NOW)).unwrap();
    assert_eq!(sf_weather.city_id, 5391997);
}

#[test]
fn get_weather_by_city_id() {
    let client = OpenWeatherClient::new(String::from("token"), Units::Metric);
    let request = client.weather_by_city_id_request(1850147);
    assert_eq!(
        request.url().unwrap(),
        "https://api.openweathermap.org/data/2.5/weather?appid=token&units=metric&id=1850147"
    );
    let tokyo_weather = read_reply::<CurrentWeatherPayload>(&answered(200, TOKYO_NOW)).unwrap();
    assert_eq!(tokyo_weather.city_id, 1850147);
}

#[test]
fn get_forecast5() {
    let client = OpenWeatherClient::new(String::from("token"), Units::Metric);
    let request = client.forecast5_request("37.766602", "-122.45108", Some(1));
    assert_eq!(
        request.url().unwrap(),
        "https://api.openweathermap.org/data/2.5/forecast?appid=token&units=metric&lat=37.766602&lon=-122.45108&cnt=1"
    );
    let sf_weather = read_reply::<Forecast5Payload>(&answered(200, SAN_FRANCISCO_NEXT)).unwrap();
    assert_eq!(sf_weather.city_info.city_id, 5391997);
    assert_eq!(sf_weather.city_info.city_name, "San Francisco County");
}

#[test]
fn check_status_admits_the_range_of_success() {
    for status in [200, 201, 204, 250, 299] {
        assert_eq!(check_status(status), Ok(()));
    }
}

#[test]
fn check_status_refuses_every_other_status() {
    for status in [0, 100, 199, 300, 301, 400, 401, 404, 429, 500, 503, u16::MAX] {
        assert_eq!(check_status(status), Err(status_failure(status)));
    }
}

#[test]
fn failure_of_the_transport_stays_one() {
    let reply = Reply::Failed(String::from("connection refused"));
    assert_eq!(
        read_reply::<CurrentWeatherPayload>(&reply),
        Err(ApiError::Transport(TransportFailure::Network(String::from("connection refused"))))
    );
}

#[test]
fn invalid_key_is_a_failure_of_the_transport() {
    assert_eq!(
        read_reply::<CurrentWeatherPayload>(&answered(401, INVALID_KEY)),
        Err(status_failure(401))
    );
    assert_eq!(
        read_reply::<Forecast5Payload>(&answered(401, INVALID_KEY)),
        Err(status_failure(401))
    );
}

#[test]
fn well_formed_body_under_a_failure_status_is_not_read() {
    for status in [199, 300, 404, 500] {
        assert_eq!(
            read_reply::<CurrentWeatherPayload>(&answered(status, SAN_FRANCISCO_NOW)),
            Err(status_failure(status))
        );
    }
}

#[test]
fn body_that_is_not_json_under_a_failure_status() {
    assert_eq!(
        read_reply::<CurrentWeatherPayload>(&answered(502, "<html>Bad Gateway</html>")),
        Err(status_failure(502))
    );
}

#[test]
fn body_that_is_not_json_is_a_decode_failure() {
    match read_reply::<CurrentWeatherPayload>(&answered(200, "<html></html>")) {
        Err(ApiError::Decode(DecodeError::Syntax(detail))) => assert!(!detail.is_empty()),
        other => panic!("{:?}", other),
    }
}

#[test]
fn body_of_another_shape_is_a_decode_failure() {
    assert_eq!(
        read_reply::<CurrentWeatherPayload>(&answered(200, INVALID_KEY)),
        Err(ApiError::Decode(DecodeError::Missing(String::from("coord"))))
    );
    assert_eq!(
        read_reply::<Forecast5Payload>(&answered(200, SAN_FRANCISCO_NOW)),
        Err(ApiError::Decode(DecodeError::WrongType(String::from("cod"))))
    );
    assert_eq!(
        read_reply::<Forecast5Payload>(&answered(200, "[]")),
        Err(ApiError::Decode(DecodeError::NotAnObject))
    );
}

#[test]
fn every_status_of_success_is_read() {
    for status in [200, 203, 299] {
        let payload = read_reply::<CurrentWeatherPayload>(&answered(status, TOKYO_NOW)).unwrap();
        assert_eq!(payload.city_name, "Tokyo");
    }
}
