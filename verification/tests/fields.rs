use openweather::error::DecodeError;
use openweather::fields::{
    read_i32, read_i64, read_number, read_optional_i32, read_optional_number, read_optional_text,
    read_optional_u32, read_text, read_u32, read_usize, write_optional_i32, write_optional_number,
    write_optional_text, write_optional_u32, write_signed, write_text, write_unsigned,
};
use openweather::json::{find, Json, Number};
use openweather::models::{Cloudiness, Coordinates, WeatherCondition};
use openweather::record::{
    read_optional_record, read_record, read_records, write_optional_record, write_record,
    write_records,
};

fn members() -> Vec<(String, Json)> {
    vec![
        (String::from("count"), Json::Number(Number::Unsigned(7))),
        (String::from("shift"), Json::Number(Number::Signed(-3600))),
        (String::from("ratio"), Json::Number(Number::Real(0.5f64.to_bits()))),
        (String::from("name"), Json::Text(String::from("Tokyo"))),
        (String::from("nothing"), Json::Null),
        (String::from("flag"), Json::Bool(false)),
        (String::from("count"), Json::Text(String::from("second"))),
        (
            String::from("clouds"),
            Json::Object(vec![(String::from("all"), Json::Number(Number::Unsigned(90)))]),
        ),
        (
            String::from("list"),
            Json::Array(vec![
                Json::Object(vec![(String::from("all"), Json::Number(Number::Unsigned(1)))]),
                Json::Object(Vec::new()),
            ]),
        ),
    ]
}

fn missing<T>(name: &str) -> Result<T, DecodeError> {
    Err(DecodeError::Missing(String::from(name)))
}

fn wrong_type<T>(name: &str) -> Result<T, DecodeError> {
    Err(DecodeError::WrongType(String::from(name)))
}

#[test]
fn find_yields_the_first_member_of_a_name() {
    let members = members();
    assert_eq!(find(&members, "count"), Some(&Json::Number(Number::Unsigned(7))));
    assert_eq!(find(&members, "nothing"), Some(&Json::Null));
    assert_eq!(find(&members, "Count"), None);
    assert_eq!(find(&members, ""), None);
    assert_eq!(find(&Vec::new(), "count"), None);
}

#[test]
fn whole_numbers_are_read_within_their_type() {
    let members = members();
    assert_eq!(read_u32(&members, "count"), Ok(7));
    assert_eq!(read_i32(&members, "count"), Ok(7));
    assert_eq!(read_i64(&members, "count"), Ok(7));
    assert_eq!(read_usize(&members, "count"), Ok(7));
    assert_eq!(read_i32(&members, "shift"), Ok(-3600));
    assert_eq!(read_i64(&members, "shift"), Ok(-3600));
    assert_eq!(read_u32(&members, "shift"), wrong_type("shift"));
    assert_eq!(read_usize(&members, "shift"), wrong_type("shift"));
    assert_eq!(read_u32(&members, "ratio"), wrong_type("ratio"));
    assert_eq!(read_i64(&members, "name"), wrong_type("name"));
    assert_eq!(read_i32(&members, "nothing"), wrong_type("nothing"));
    assert_eq!(read_u32(&members, "absent"), missing("absent"));
}

#[test]
fn optional_whole_numbers_may_be_absent_or_null() {
    let members = members();
    assert_eq!(read_optional_u32(&members, "count"), Ok(Some(7)));
    assert_eq!(read_optional_u32(&members, "absent"), Ok(None));
    assert_eq!(read_optional_u32(&members, "nothing"), Ok(None));
    assert_eq!(read_optional_u32(&members, "shift"), wrong_type("shift"));
    assert_eq!(read_optional_i32(&members, "shift"), Ok(Some(-3600)));
    assert_eq!(read_optional_i32(&members, "flag"), wrong_type("flag"));
}

#[test]
fn numbers_are_read_in_any_form() {
    let members = members();
    assert_eq!(read_number(&members, "count"), Ok(Number::Unsigned(7)));
    assert_eq!(read_number(&members, "shift"), Ok(Number::Signed(-3600)));
    assert_eq!(read_number(&members, "ratio"), Ok(Number::Real(0.5f64.to_bits())));
    assert_eq!(read_number(&members, "name"), wrong_type("name"));
    assert_eq!(read_number(&members, "absent"), missing("absent"));
    assert_eq!(read_optional_number(&members, "ratio"), Ok(Some(Number::Real(0.5f64.to_bits()))));
    assert_eq!(read_optional_number(&members, "nothing"), Ok(None));
    assert_eq!(read_optional_number(&members, "absent"), Ok(None));
    assert_eq!(read_optional_number(&members, "flag"), wrong_type("flag"));
}

#[test]
fn texts_are_read() {
    let members = members();
    assert_eq!(read_text(&members, "name"), Ok(String::from("Tokyo")));
    assert_eq!(read_text(&members, "count"), wrong_type("count"));
    assert_eq!(read_text(&members, "absent"), missing("absent"));
    assert_eq!(read_optional_text(&members, "name"), Ok(Some(String::from("Tokyo"))));
    assert_eq!(read_optional_text(&members, "nothing"), Ok(None));
    assert_eq!(read_optional_text(&members, "absent"), Ok(None));
    assert_eq!(read_optional_text(&members, "flag"), wrong_type("flag"));
}

#[test]
fn records_are_read_from_objects() {
    let members = members();
    assert_eq!(read_record::<Cloudiness>(&members, "clouds"), Ok(Cloudiness { percentage: Some(90) }));
    assert_eq!(read_record::<Cloudiness>(&members, "name"), wrong_type("name"));
    assert_eq!(read_record::<Cloudiness>(&members, "nothing"), wrong_type("nothing"));
    assert_eq!(read_record::<Cloudiness>(&members, "absent"), missing("absent"));
    assert_eq!(read_record::<Coordinates>(&members, "clouds"), missing("lat"));
    assert_eq!(
        read_optional_record::<Cloudiness>(&members, "clouds"),
        Ok(Some(Cloudiness { percentage: Some(90) }))
    );
    assert_eq!(read_optional_record::<Cloudiness>(&members, "nothing"), Ok(None));
    assert_eq!(read_optional_record::<Cloudiness>(&members, "absent"), Ok(None));
    assert_eq!(read_optional_record::<Cloudiness>(&members, "list"), wrong_type("list"));
    assert_eq!(read_optional_record::<Coordinates>(&members, "clouds"), missing("lat"));
}

#[test]
fn lists_of_records_are_read_from_arrays() {
    let members = members();
    assert_eq!(
        read_records::<Cloudiness>(&members, "list"),
        Ok(vec![Cloudiness { percentage: Some(1) }, Cloudiness { percentage: None }])
    );
    assert_eq!(read_records::<WeatherCondition>(&members, "list"), missing("id"));
    assert_eq!(read_records::<Cloudiness>(&members, "clouds"), wrong_type("clouds"));
    assert_eq!(read_records::<Cloudiness>(&members, "nothing"), wrong_type("nothing"));
    assert_eq!(read_records::<Cloudiness>(&members, "absent"), missing("absent"));
}

#[test]
fn first_item_that_fails_decides_the_list() {
    let list = Json::Array(vec![
        Json::Object(Vec::new()),
        Json::Object(vec![(String::from("all"), Json::Bool(true))]),
        Json::Null,
    ]);
    let members = vec![(String::from("list"), list)];
    assert_eq!(read_records::<Cloudiness>(&members, "list"), wrong_type("all"));
    let list = Json::Array(vec![Json::Object(Vec::new()), Json::Null]);
    let members = vec![(String::from("list"), list)];
    assert_eq!(read_records::<Cloudiness>(&members, "list"), wrong_type("list"));
}

#[test]
fn values_are_written() {
    assert_eq!(write_unsigned(0), Json::Number(Number::Unsigned(0)));
    assert_eq!(write_unsigned(u64::MAX), Json::Number(Number::Unsigned(u64::MAX)));
    assert_eq!(write_signed(0), Json::Number(Number::Unsigned(0)));
    assert_eq!(write_signed(i64::MAX), Json::Number(Number::Unsigned(i64::MAX as u64)));
    assert_eq!(write_signed(-1), Json::Number(Number::Signed(-1)));
    assert_eq!(write_signed(i64::MIN), Json::Number(Number::Signed(i64::MIN)));
    assert_eq!(write_optional_u32(Some(5)), Json::Number(Number::Unsigned(5)));
    assert_eq!(write_optional_u32(None), Json::Null);
    assert_eq!(write_optional_i32(Some(-5)), Json::Number(Number::Signed(-5)));
    assert_eq!(write_optional_i32(Some(5)), Json::Number(Number::Unsigned(5)));
    assert_eq!(write_optional_i32(None), Json::Null);
    assert_eq!(write_optional_number(Some(Number::Signed(2))), Json::Number(Number::Signed(2)));
    assert_eq!(write_optional_number(None), Json::Null);
    assert_eq!(write_text(&String::from("d")), Json::Text(String::from("d")));
    assert_eq!(write_optional_text(&Some(String::from("d"))), Json::Text(String::from("d")));
    assert_eq!(write_optional_text(&None), Json::Null);
}

#[test]
fn records_are_written() {
    let clouds = Cloudiness { percentage: Some(3) };
    let object = Json::Object(vec![(String::from("all"), Json::Number(Number::Unsigned(3)))]);
    assert_eq!(write_record(&clouds), object);
    assert_eq!(write_optional_record(&Some(clouds.clone())), object);
    assert_eq!(write_optional_record::<Cloudiness>(&None), Json::Null);
    assert_eq!(write_records::<Cloudiness>(&Vec::new()), Json::Array(Vec::new()));
    let empty = Json::Object(vec![(String::from("all"), Json::Null)]);
    assert_eq!(
        write_records(&vec![clouds, Cloudiness { percentage: None }]),
        Json::Array(vec![object, empty])
    );
}
