use openweather::json::{Json, Number};
use openweather::models::{
    Cloudiness, Coordinates, CurrentWeatherPayload, CurrentWeatherSys, Forecast5CityInfo,
    Forecast5ListItem, Forecast5Payload, Forecast5Sys, MainInformation, RainfallTotals,
    SnowfallTotals, WeatherCondition, WindInformation,
};
use openweather::payload::{from_json, to_json};

fn fraction(x: f64) -> Number {
    Number::Real(x.to_bits())
}

fn number(n: &serde_json::Number) -> Number {
    if let Some(u) = n.as_u64() {
        Number::Unsigned(u)
    } else if let Some(i) = n.as_i64() {
        Number::Signed(i)
    } else {
        Number::Real(n.as_f64().unwrap().to_bits())
    }
}

fn lift(value: serde_json::Value) -> Json {
    match value {
        serde_json::Value::Null => Json::Null,
        serde_json::Value::Bool(b) => Json::Bool(b),
        serde_json::Value::Number(n) => Json::Number(number(&n)),
        serde_json::Value::String(s) => Json::Text(s),
        serde_json::Value::Array(items) => Json::Array(items.into_iter().map(lift).collect()),
        serde_json::Value::Object(members) => {
            Json::Object(members.into_iter().map(|(k, v)| (k, lift(v))).collect())
        }
    }
}

fn lower(json: &Json) -> serde_json::Value {
    match json {
        Json::Null => serde_json::Value::Null,
        Json::Bool(b) => serde_json::Value::Bool(*b),
        Json::Number(Number::Unsigned(n)) => serde_json::Value::from(*n),
        Json::Number(Number::Signed(n)) => serde_json::Value::from(*n),
        Json::Number(Number::Real(bits)) => serde_json::Value::from(f64::from_bits(*bits)),
        Json::Text(s) => serde_json::Value::String(s.clone()),
        Json::Array(items) => serde_json::Value::Array(items.iter().map(lower).collect()),
        Json::Object(members) => serde_json::Value::Object(
            members.iter().map(|(k, v)| (k.clone(), lower(v))).collect(),
        ),
    }
}

fn through_text(json: &Json) -> Json {
    let text = serde_json::to_string(&lower(json)).unwrap();
    lift(serde_json::from_str::<serde_json::Value>(&text).unwrap())
}

fn names(json: &Json) -> Vec<String> {
    match json {
        Json::Object(members) => members.iter().map(|m| m.0.clone()).collect(),
        _ => Vec::new(),
    }
}

fn conditions() -> Vec<WeatherCondition> {
    vec![
        WeatherCondition {
            id: 500,
            main: String::from("Rain"),
            description: String::from("light rain"),
            icon_id: String::from("10d"),
        },
        WeatherCondition {
            id: 701,
            main: String::from("Mist"),
            description: String::from("mist"),
            icon_id: String::from("50d"),
        },
    ]
}

fn main_information() -> MainInformation {
    MainInformation {
        temp: fraction(-3.25),
        feels_like: fraction(-7.5),
        temp_min: Number::Signed(-4),
        temp_max: Number::Unsigned(0),
        humidity: Number::Unsigned(93),
        pressure: fraction(1002.5),
        sea_level: Some(fraction(1002.5)),
        grnd_level: None,
        temp_kf: Some(Number::Unsigned(0)),
    }
}

fn current_weather() -> CurrentWeatherPayload {
    CurrentWeatherPayload {
        coord: Coordinates { lat: fraction(35.6895), lon: fraction(139.6917) },
        weather_conditions: conditions(),
        base: None,
        main: main_information(),
        visibility: Some(7000),
        wind: WindInformation { speed: fraction(2.5), deg: Number::Unsigned(10), gust: None },
        rainfall: Some(RainfallTotals { last_1h: Some(fraction(0.5)), last_3h: None }),
        snowfall: Some(SnowfallTotals { last_1h: None, last_3h: Some(fraction(1.25)) }),
        cloudiness: Cloudiness { percentage: None },
        dt_unix_timestamp: u32::MAX,
        sys: CurrentWeatherSys {
            message_type: None,
            id: Some(0),
            country: String::from("JP"),
            sunrise_timestamp: -1,
            sunset_timestamp: i64::MAX,
        },
        timezone: Some(-32400),
        city_id: -1850147,
        city_name: String::from("Tokyo"),
        cod: None,
    }
}

fn forecast() -> Forecast5Payload {
    let sample = Forecast5ListItem {
        dt_unix_timestamp: 1650002400,
        dt_iso8601_str: String::from("2022-04-15 06:00:00"),
        main: main_information(),
        weather_conditions: conditions(),
        cloudiness: Cloudiness { percentage: Some(100) },
        wind: WindInformation { speed: fraction(5.1), deg: fraction(265.5), gust: Some(fraction(8.3)) },
        visibility: None,
        probability_of_precipitation: Number::Unsigned(1),
        rainfall: None,
        snowfall: Some(SnowfallTotals { last_1h: None, last_3h: None }),
        sys: Forecast5Sys { part_of_day: String::from("d") },
    };
    let mut later = sample.clone();
    later.dt_unix_timestamp = 1650013200;
    later.weather_conditions = Vec::new();
    later.rainfall = Some(RainfallTotals { last_1h: None, last_3h: Some(fraction(0.25)) });
    Forecast5Payload {
        cod: Some(String::from("200")),
        message: 0,
        cnt: 2,
        forecast_list: vec![sample, later],
        city_info: Forecast5CityInfo {
            city_id: 1850147,
            city_name: String::from("Tokyo"),
            coord: Coordinates { lat: fraction(35.6895), lon: fraction(139.6917) },
            country: String::from("JP"),
            population: 8336599,
            timezone: None,
            sunrise_timestamp: 1649966400,
            sunset_timestamp: 1650013800,
        },
    }
}

#[test]
fn current_weather_reads_back() {
    let record = current_weather();
    assert_eq!(from_json::<CurrentWeatherPayload>(&to_json(&record)), Ok(record));
}

#[test]
fn forecast_reads_back() {
    let record = forecast();
    assert_eq!(from_json::<Forecast5Payload>(&to_json(&record)), Ok(record));
}

#[test]
fn current_weather_reads_back_through_text() {
    let record = current_weather();
    let json = through_text(&to_json(&record));
    assert_eq!(from_json::<CurrentWeatherPayload>(&json), Ok(record));
}

#[test]
fn forecast_reads_back_through_text() {
    let record = forecast();
    let json = through_text(&to_json(&record));
    assert_eq!(from_json::<Forecast5Payload>(&json), Ok(record));
}

#[test]
fn small_records_read_back() {
    let coord = Coordinates { lat: Number::Signed(-90), lon: fraction(180.0) };
    assert_eq!(from_json::<Coordinates>(&to_json(&coord)), Ok(coord));
    let clouds = Cloudiness { percentage: Some(u32::MAX) };
    assert_eq!(from_json::<Cloudiness>(&to_json(&clouds)), Ok(clouds));
    let rain = RainfallTotals { last_1h: None, last_3h: None };
    assert_eq!(from_json::<RainfallTotals>(&to_json(&rain)), Ok(rain));
    let sys = Forecast5Sys { part_of_day: String::new() };
    assert_eq!(from_json::<Forecast5Sys>(&to_json(&sys)), Ok(sys));
}

#[test]
fn fields_are_written_under_their_wire_names() {
    assert_eq!(
        names(&to_json(&current_weather())),
        [
            "coord", "weather", "base", "main", "visibility", "wind", "rain", "snow", "clouds",
            "dt", "sys", "timezone", "id", "name", "cod",
        ]
    );
    assert_eq!(names(&to_json(&forecast())), ["cod", "message", "cnt", "list", "city"]);
    let rain = RainfallTotals { last_1h: None, last_3h: None };
    assert_eq!(names(&to_json(&rain)), ["1h", "3h"]);
    let condition = conditions().remove(0);
    assert_eq!(names(&to_json(&condition)), ["id", "main", "description", "icon"]);
}

#[test]
fn empty_optional_field_is_written_as_null() {
    let json = to_json(&Cloudiness { percentage: None });
    assert_eq!(json, Json::Object(vec![(String::from("all"), Json::Null)]));
}

#[test]
fn whole_numbers_are_written_by_their_sign() {
    let json = to_json(&CurrentWeatherSys {
        message_type: Some(7),
        id: None,
        country: String::from("US"),
        sunrise_timestamp: -5,
        sunset_timestamp: 5,
    });
    assert_eq!(
        json,
        Json::Object(vec![
            (String::from("type"), Json::Number(Number::Unsigned(7))),
            (String::from("id"), Json::Null),
            (String::from("country"), Json::Text(String::from("US"))),
            (String::from("sunrise"), Json::Number(Number::Signed(-5))),
            (String::from("sunset"), Json::Number(Number::Unsigned(5))),
        ])
    );
}
