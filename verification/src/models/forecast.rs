//! The payload of the `forecast` endpoint.

use crate::error::{DecodeError, DecodeErrorView};
use crate::fields::{
    optional_i32, optional_i32_json, optional_text, optional_text_json, optional_u32,
    optional_u32_json, read_i32, read_i64, read_number, read_optional_i32, read_optional_text,
    read_optional_u32, read_text, read_u32, read_usize, required_i32, required_i64, required_number,
    required_text, required_u32, required_usize, whole_json, write_optional_i32,
    write_optional_text, write_optional_u32, write_signed, write_text, write_unsigned,
};
use crate::json::{lemma_member_at, members_view, outline, Json, JsonView, Number};
use crate::models::common::{
    Cloudiness, CloudinessView, Coordinates, CoordinatesView, MainInformation, MainInformationView,
    RainfallTotals, RainfallTotalsView, SnowfallTotals, SnowfallTotalsView, WeatherCondition,
    WeatherConditionView, WindInformation, WindInformationView,
};
use crate::record::{
    lemma_records_read_back, optional_record, optional_record_json, read_optional_record,
    read_record, read_records, record_json, records_json, required_record, required_records,
    write_optional_record, write_record, write_records, Record,
};
use vstd::prelude::*;
use vstd::string::*;

verus! {

/// What a [`Forecast5Payload`] holds, as plain mathematical data.
pub struct Forecast5PayloadView {
    pub cod: Option<Seq<char>>,
    pub message: u32,
    pub cnt: usize,
    pub forecast_list: Seq<Forecast5ListItemView>,
    pub city_info: Forecast5CityInfoView,
}

/// What the `forecast` endpoint answers: the weather of the next five days
/// in samples three hours apart.
#[derive(Clone, Debug, PartialEq)]
pub struct Forecast5Payload {
    /// A status code of the service's own; on this endpoint a text.
    pub cod: Option<String>,
    /// A parameter of the service's own.
    pub message: u32,
    /// Number of samples in the answer.
    pub cnt: usize,
    /// The samples, earliest first.
    /// Written `list` in the payload.
    pub forecast_list: Vec<Forecast5ListItem>,
    /// The city that the forecast is for.
    /// Written `city` in the payload.
    pub city_info: Forecast5CityInfo,
}

impl DeepView for Forecast5Payload {
    type V = Forecast5PayloadView;

    open spec fn deep_view(&self) -> Forecast5PayloadView {
        Forecast5PayloadView {
            cod: self.cod.deep_view(),
            message: self.message,
            cnt: self.cnt,
            forecast_list: self.forecast_list.deep_view(),
            city_info: self.city_info.deep_view(),
        }
    }
}

impl View for Forecast5Payload {
    type V = Forecast5PayloadView;

    open spec fn view(&self) -> Forecast5PayloadView {
        self.deep_view()
    }
}

impl Record for Forecast5Payload {
    open spec fn needed() -> Set<Seq<char>> {
        set!["message"@, "cnt"@, "list"@, "city"@]
    }

    open spec fn from_members(members: Seq<(Seq<char>, JsonView)>) -> Result<
        Forecast5PayloadView,
        DecodeErrorView,
    > {
        let cod = optional_text(members, "cod"@);
        let message = required_u32(members, "message"@);
        let cnt = required_usize(members, "cnt"@);
        let forecast_list = required_records::<Forecast5ListItem>(members, "list"@);
        let city_info = required_record::<Forecast5CityInfo>(members, "city"@);
        if cod is Err {
            Err(cod->Err_0)
        } else if message is Err {
            Err(message->Err_0)
        } else if cnt is Err {
            Err(cnt->Err_0)
        } else if forecast_list is Err {
            Err(forecast_list->Err_0)
        } else if city_info is Err {
            Err(city_info->Err_0)
        } else {
            Ok(
                Forecast5PayloadView {
                    cod: cod->Ok_0,
                    message: message->Ok_0,
                    cnt: cnt->Ok_0,
                    forecast_list: forecast_list->Ok_0,
                    city_info: city_info->Ok_0,
                },
            )
        }
    }

    open spec fn to_members(record: Forecast5PayloadView) -> Seq<(Seq<char>, JsonView)> {
        seq![
            ("cod"@, optional_text_json(record.cod)),
            ("message"@, whole_json(record.message as int)),
            ("cnt"@, whole_json(record.cnt as int)),
            ("list"@, records_json::<Forecast5ListItem>(record.forecast_list)),
            ("city"@, record_json::<Forecast5CityInfo>(record.city_info)),
        ]
    }

    fn decode(members: &Vec<(String, Json)>) -> (decoded: Result<Forecast5Payload, DecodeError>) {
        let cod = read_optional_text(members, "cod")?;
        let message = read_u32(members, "message")?;
        let cnt = read_usize(members, "cnt")?;
        let forecast_list = read_records::<Forecast5ListItem>(members, "list")?;
        let city_info = read_record::<Forecast5CityInfo>(members, "city")?;
        Ok(Forecast5Payload { cod, message, cnt, forecast_list, city_info })
    }

    fn encode(&self) -> (members: Vec<(String, Json)>) {
        let mut members: Vec<(String, Json)> = Vec::new();
        members.push((String::from_str("cod"), write_optional_text(&self.cod)));
        members.push((String::from_str("message"), write_unsigned(self.message as u64)));
        members.push((String::from_str("cnt"), write_unsigned(self.cnt as u64)));
        members.push(
            (String::from_str("list"), write_records::<Forecast5ListItem>(&self.forecast_list)),
        );
        members.push(
            (String::from_str("city"), write_record::<Forecast5CityInfo>(&self.city_info)),
        );
        assert(members_view(members@) =~= Self::to_members(self.deep_view()));
        members
    }

    proof fn lemma_read_back(record: Forecast5PayloadView) {
        let members = Self::to_members(record);
        reveal_strlit("cod");
        reveal_strlit("message");
        reveal_strlit("cnt");
        reveal_strlit("list");
        reveal_strlit("city");
        assert(outline("cod"@) == (3nat, 'c', 'd'));
        assert(outline("message"@) == (7nat, 'm', 'e'));
        assert(outline("cnt"@) == (3nat, 'c', 't'));
        assert(outline("list"@) == (4nat, 'l', 't'));
        assert(outline("city"@) == (4nat, 'c', 'y'));
        lemma_member_at(members, "cod"@, 0);
        lemma_member_at(members, "message"@, 1);
        lemma_member_at(members, "cnt"@, 2);
        lemma_member_at(members, "list"@, 3);
        lemma_member_at(members, "city"@, 4);
        lemma_records_read_back::<Forecast5ListItem>(record.forecast_list, "list"@);
        Forecast5CityInfo::lemma_read_back(record.city_info);
    }

    proof fn lemma_needed(members: Seq<(Seq<char>, JsonView)>, name: Seq<char>) {
    }
}

/// What a [`Forecast5CityInfo`] holds, as plain mathematical data.
pub struct Forecast5CityInfoView {
    pub city_id: i32,
    pub city_name: Seq<char>,
    pub coord: CoordinatesView,
    pub country: Seq<char>,
    pub population: usize,
    pub timezone: Option<i32>,
    pub sunrise_timestamp: i64,
    pub sunset_timestamp: i64,
}

/// The city of a forecast, with its daylight.
#[derive(Clone, Debug, PartialEq)]
pub struct Forecast5CityInfo {
    /// Identifier of the city.
    /// Written `id` in the payload.
    pub city_id: i32,
    /// Name of the city.
    /// Written `name` in the payload.
    pub city_name: String,
    /// Where the city lies.
    pub coord: Coordinates,
    /// Country code.
    pub country: String,
    /// Number of inhabitants.
    pub population: usize,
    /// Shift of the local time from UTC in seconds.
    pub timezone: Option<i32>,
    /// Sunrise, in seconds since the Unix epoch, UTC.
    /// Written `sunrise` in the payload.
    pub sunrise_timestamp: i64,
    /// Sunset, in seconds since the Unix epoch, UTC.
    /// Written `sunset` in the payload.
    pub sunset_timestamp: i64,
}

impl DeepView for Forecast5CityInfo {
    type V = Forecast5CityInfoView;

    open spec fn deep_view(&self) -> Forecast5CityInfoView {
        Forecast5CityInfoView {
            city_id: self.city_id,
            city_name: self.city_name@,
            coord: self.coord.deep_view(),
            country: self.country@,
            population: self.population,
            timezone: self.timezone,
            sunrise_timestamp: self.sunrise_timestamp,
            sunset_timestamp: self.sunset_timestamp,
        }
    }
}

impl View for Forecast5CityInfo {
    type V = Forecast5CityInfoView;

    open spec fn view(&self) -> Forecast5CityInfoView {
        self.deep_view()
    }
}

impl Record for Forecast5CityInfo {
    open spec fn needed() -> Set<Seq<char>> {
        set!["id"@, "name"@, "coord"@, "country"@, "population"@, "sunrise"@, "sunset"@]
    }

    open spec fn from_members(members: Seq<(Seq<char>, JsonView)>) -> Result<
        Forecast5CityInfoView,
        DecodeErrorView,
    > {
        let city_id = required_i32(members, "id"@);
        let city_name = required_text(members, "name"@);
        let coord = required_record::<Coordinates>(members, "coord"@);
        let country = required_text(members, "country"@);
        let population = required_usize(members, "population"@);
        let timezone = optional_i32(members, "timezone"@);
        let sunrise_timestamp = required_i64(members, "sunrise"@);
        let sunset_timestamp = required_i64(members, "sunset"@);
        if city_id is Err {
            Err(city_id->Err_0)
        } else if city_name is Err {
            Err(city_name->Err_0)
        } else if coord is Err {
            Err(coord->Err_0)
        } else if country is Err {
            Err(country->Err_0)
        } else if population is Err {
            Err(population->Err_0)
        } else if timezone is Err {
            Err(timezone->Err_0)
        } else if sunrise_timestamp is Err {
            Err(sunrise_timestamp->Err_0)
        } else if sunset_timestamp is Err {
            Err(sunset_timestamp->Err_0)
        } else {
            Ok(
                Forecast5CityInfoView {
                    city_id: city_id->Ok_0,
                    city_name: city_name->Ok_0,
                    coord: coord->Ok_0,
                    country: country->Ok_0,
                    population: population->Ok_0,
                    timezone: timezone->Ok_0,
                    sunrise_timestamp: sunrise_timestamp->Ok_0,
                    sunset_timestamp: sunset_timestamp->Ok_0,
                },
            )
        }
    }

    open spec fn to_members(record: Forecast5CityInfoView) -> Seq<(Seq<char>, JsonView)> {
        seq![
            ("id"@, whole_json(record.city_id as int)),
            ("name"@, JsonView::Text(record.city_name)),
            ("coord"@, record_json::<Coordinates>(record.coord)),
            ("country"@, JsonView::Text(record.country)),
            ("population"@, whole_json(record.population as int)),
            ("timezone"@, optional_i32_json(record.timezone)),
            ("sunrise"@, whole_json(record.sunrise_timestamp as int)),
            ("sunset"@, whole_json(record.sunset_timestamp as int)),
        ]
    }

    fn decode(members: &Vec<(String, Json)>) -> (decoded: Result<Forecast5CityInfo, DecodeError>) {
        let city_id = read_i32(members, "id")?;
        let city_name = read_text(members, "name")?;
        let coord = read_record::<Coordinates>(members, "coord")?;
        let country = read_text(members, "country")?;
        let population = read_usize(members, "population")?;
        let timezone = read_optional_i32(members, "timezone")?;
        let sunrise_timestamp = read_i64(members, "sunrise")?;
        let sunset_timestamp = read_i64(members, "sunset")?;
        Ok(Forecast5CityInfo {
            city_id,
            city_name,
            coord,
            country,
            population,
            timezone,
            sunrise_timestamp,
            sunset_timestamp,
        })
    }

    fn encode(&self) -> (members: Vec<(String, Json)>) {
        let mut members: Vec<(String, Json)> = Vec::new();
        members.push((String::from_str("id"), write_signed(self.city_id as i64)));
        members.push((String::from_str("name"), write_text(&self.city_name)));
        members.push((String::from_str("coord"), write_record::<Coordinates>(&self.coord)));
        members.push((String::from_str("country"), write_text(&self.country)));
        members.push((String::from_str("population"), write_unsigned(self.population as u64)));
        members.push((String::from_str("timezone"), write_optional_i32(self.timezone)));
        members.push((String::from_str("sunrise"), write_signed(self.sunrise_timestamp)));
        members.push((String::from_str("sunset"), write_signed(self.sunset_timestamp)));
        assert(members_view(members@) =~= Self::to_members(self.deep_view()));
        members
    }

    proof fn lemma_read_back(record: Forecast5CityInfoView) {
        let members = Self::to_members(record);
        reveal_strlit("id");
        reveal_strlit("name");
        reveal_strlit("coord");
        reveal_strlit("country");
        reveal_strlit("population");
        reveal_strlit("timezone");
        reveal_strlit("sunrise");
        reveal_strlit("sunset");
        assert(outline("id"@) == (2nat, 'i', 'd'));
        assert(outline("name"@) == (4nat, 'n', 'e'));
        assert(outline("coord"@) == (5nat, 'c', 'd'));
        assert(outline("country"@) == (7nat, 'c', 'y'));
        assert(outline("population"@) == (10nat, 'p', 'n'));
        assert(outline("timezone"@) == (8nat, 't', 'e'));
        assert(outline("sunrise"@) == (7nat, 's', 'e'));
        assert(outline("sunset"@) == (6nat, 's', 't'));
        lemma_member_at(members, "id"@, 0);
        lemma_member_at(members, "name"@, 1);
        lemma_member_at(members, "coord"@, 2);
        lemma_member_at(members, "country"@, 3);
        lemma_member_at(members, "population"@, 4);
        lemma_member_at(members, "timezone"@, 5);
        lemma_member_at(members, "sunrise"@, 6);
        lemma_member_at(members, "sunset"@, 7);
        Coordinates::lemma_read_back(record.coord);
    }

    proof fn lemma_needed(members: Seq<(Seq<char>, JsonView)>, name: Seq<char>) {
    }
}

/// What a [`Forecast5ListItem`] holds, as plain mathematical data.
pub struct Forecast5ListItemView {
    pub dt_unix_timestamp: u32,
    pub dt_iso8601_str: Seq<char>,
    pub main: MainInformationView,
    pub weather_conditions: Seq<WeatherConditionView>,
    pub cloudiness: CloudinessView,
    pub wind: WindInformationView,
    pub visibility: Option<u32>,
    pub probability_of_precipitation: Number,
    pub rainfall: Option<RainfallTotalsView>,
    pub snowfall: Option<SnowfallTotalsView>,
    pub sys: Forecast5SysView,
}

/// One sample of the five-day forecast: the weather expected at one moment.
#[derive(Clone, Debug, PartialEq)]
pub struct Forecast5ListItem {
    /// The moment forecast, in seconds since the Unix epoch, UTC.
    /// Written `dt` in the payload.
    pub dt_unix_timestamp: u32,
    /// The moment forecast, in ISO 8601 notation, UTC.
    /// Written `dt_txt` in the payload.
    pub dt_iso8601_str: String,
    /// Temperature, pressure and humidity.
    pub main: MainInformation,
    /// The conditions that describe the weather.
    /// Written `weather` in the payload.
    pub weather_conditions: Vec<WeatherCondition>,
    /// Cloud cover.
    /// Written `clouds` in the payload.
    pub cloudiness: Cloudiness,
    /// The wind.
    pub wind: WindInformation,
    /// Average visibility in metres, at most 10000.
    pub visibility: Option<u32>,
    /// Probability of precipitation, from 0 for none to 1 for certain.
    /// Written `pop` in the payload.
    pub probability_of_precipitation: Number,
    /// Rain, where any is expected.
    /// Written `rain` in the payload.
    pub rainfall: Option<RainfallTotals>,
    /// Snow, where any is expected.
    /// Written `snow` in the payload.
    pub snowfall: Option<SnowfallTotals>,
    /// Part of the day.
    pub sys: Forecast5Sys,
}

impl DeepView for Forecast5ListItem {
    type V = Forecast5ListItemView;

    open spec fn deep_view(&self) -> Forecast5ListItemView {
        Forecast5ListItemView {
            dt_unix_timestamp: self.dt_unix_timestamp,
            dt_iso8601_str: self.dt_iso8601_str@,
            main: self.main.deep_view(),
            weather_conditions: self.weather_conditions.deep_view(),
            cloudiness: self.cloudiness.deep_view(),
            wind: self.wind.deep_view(),
            visibility: self.visibility,
            probability_of_precipitation: self.probability_of_precipitation,
            rainfall: self.rainfall.deep_view(),
            snowfall: self.snowfall.deep_view(),
            sys: self.sys.deep_view(),
        }
    }
}

impl View for Forecast5ListItem {
    type V = Forecast5ListItemView;

    open spec fn view(&self) -> Forecast5ListItemView {
        self.deep_view()
    }
}

impl Record for Forecast5ListItem {
    open spec fn needed() -> Set<Seq<char>> {
        set!["dt"@, "dt_txt"@, "main"@, "weather"@, "clouds"@, "wind"@, "pop"@, "sys"@]
    }

    open spec fn from_members(members: Seq<(Seq<char>, JsonView)>) -> Result<
        Forecast5ListItemView,
        DecodeErrorView,
    > {
        let dt_unix_timestamp = required_u32(members, "dt"@);
        let dt_iso8601_str = required_text(members, "dt_txt"@);
        let main = required_record::<MainInformation>(members, "main"@);
        let weather_conditions = required_records::<WeatherCondition>(members, "weather"@);
        let cloudiness = required_record::<Cloudiness>(members, "clouds"@);
        let wind = required_record::<WindInformation>(members, "wind"@);
        let visibility = optional_u32(members, "visibility"@);
        let probability_of_precipitation = required_number(members, "pop"@);
        let rainfall = optional_record::<RainfallTotals>(members, "rain"@);
        let snowfall = optional_record::<SnowfallTotals>(members, "snow"@);
        let sys = required_record::<Forecast5Sys>(members, "sys"@);
        if dt_unix_timestamp is Err {
            Err(dt_unix_timestamp->Err_0)
        } else if dt_iso8601_str is Err {
            Err(dt_iso8601_str->Err_0)
        } else if main is Err {
            Err(main->Err_0)
        } else if weather_conditions is Err {
            Err(weather_conditions->Err_0)
        } else if cloudiness is Err {
            Err(cloudiness->Err_0)
        } else if wind is Err {
            Err(wind->Err_0)
        } else if visibility is Err {
            Err(visibility->Err_0)
        } else if probability_of_precipitation is Err {
            Err(probability_of_precipitation->Err_0)
        } else if rainfall is Err {
            Err(rainfall->Err_0)
        } else if snowfall is Err {
            Err(snowfall->Err_0)
        } else if sys is Err {
            Err(sys->Err_0)
        } else {
            Ok(
                Forecast5ListItemView {
                    dt_unix_timestamp: dt_unix_timestamp->Ok_0,
                    dt_iso8601_str: dt_iso8601_str->Ok_0,
                    main: main->Ok_0,
                    weather_conditions: weather_conditions->Ok_0,
                    cloudiness: cloudiness->Ok_0,
                    wind: wind->Ok_0,
                    visibility: visibility->Ok_0,
                    probability_of_precipitation: probability_of_precipitation->Ok_0,
                    rainfall: rainfall->Ok_0,
                    snowfall: snowfall->Ok_0,
                    sys: sys->Ok_0,
                },
            )
        }
    }

    open spec fn to_members(record: Forecast5ListItemView) -> Seq<(Seq<char>, JsonView)> {
        seq![
            ("dt"@, whole_json(record.dt_unix_timestamp as int)),
            ("dt_txt"@, JsonView::Text(record.dt_iso8601_str)),
            ("main"@, record_json::<MainInformation>(record.main)),
            ("weather"@, records_json::<WeatherCondition>(record.weather_conditions)),
            ("clouds"@, record_json::<Cloudiness>(record.cloudiness)),
            ("wind"@, record_json::<WindInformation>(record.wind)),
            ("visibility"@, optional_u32_json(record.visibility)),
            ("pop"@, JsonView::Number(record.probability_of_precipitation)),
            ("rain"@, optional_record_json::<RainfallTotals>(record.rainfall)),
            ("snow"@, optional_record_json::<SnowfallTotals>(record.snowfall)),
            ("sys"@, record_json::<Forecast5Sys>(record.sys)),
        ]
    }

    fn decode(members: &Vec<(String, Json)>) -> (decoded: Result<Forecast5ListItem, DecodeError>) {
        let dt_unix_timestamp = read_u32(members, "dt")?;
        let dt_iso8601_str = read_text(members, "dt_txt")?;
        let main = read_record::<MainInformation>(members, "main")?;
        let weather_conditions = read_records::<WeatherCondition>(members, "weather")?;
        let cloudiness = read_record::<Cloudiness>(members, "clouds")?;
        let wind = read_record::<WindInformation>(members, "wind")?;
        let visibility = read_optional_u32(members, "visibility")?;
        let probability_of_precipitation = read_number(members, "pop")?;
        let rainfall = read_optional_record::<RainfallTotals>(members, "rain")?;
        let snowfall = read_optional_record::<SnowfallTotals>(members, "snow")?;
        let sys = read_record::<Forecast5Sys>(members, "sys")?;
        Ok(Forecast5ListItem {
            dt_unix_timestamp,
            dt_iso8601_str,
            main,
            weather_conditions,
            cloudiness,
            wind,
            visibility,
            probability_of_precipitation,
            rainfall,
            snowfall,
            sys,
        })
    }

    fn encode(&self) -> (members: Vec<(String, Json)>) {
        let mut members: Vec<(String, Json)> = Vec::new();
        members.push((String::from_str("dt"), write_unsigned(self.dt_unix_timestamp as u64)));
        members.push((String::from_str("dt_txt"), write_text(&self.dt_iso8601_str)));
        members.push((String::from_str("main"), write_record::<MainInformation>(&self.main)));
        members.push(
            (String::from_str("weather"), write_records::<WeatherCondition>(&self.weather_conditions)),
        );
        members.push((String::from_str("clouds"), write_record::<Cloudiness>(&self.cloudiness)));
        members.push((String::from_str("wind"), write_record::<WindInformation>(&self.wind)));
        members.push((String::from_str("visibility"), write_optional_u32(self.visibility)));
        members.push((String::from_str("pop"), Json::Number(self.probability_of_precipitation)));
        members.push(
            (String::from_str("rain"), write_optional_record::<RainfallTotals>(&self.rainfall)),
        );
        members.push(
            (String::from_str("snow"), write_optional_record::<SnowfallTotals>(&self.snowfall)),
        );
        members.push((String::from_str("sys"), write_record::<Forecast5Sys>(&self.sys)));
        assert(members_view(members@) =~= Self::to_members(self.deep_view()));
        members
    }

    proof fn lemma_read_back(record: Forecast5ListItemView) {
        let members = Self::to_members(record);
        reveal_strlit("dt");
        reveal_strlit("dt_txt");
        reveal_strlit("main");
        reveal_strlit("weather");
        reveal_strlit("clouds");
        reveal_strlit("wind");
        reveal_strlit("visibility");
        reveal_strlit("pop");
        reveal_strlit("rain");
        reveal_strlit("snow");
        reveal_strlit("sys");
        assert(outline("dt"@) == (2nat, 'd', 't'));
        assert(outline("dt_txt"@) == (6nat, 'd', 't'));
        assert(outline("main"@) == (4nat, 'm', 'n'));
        assert(outline("weather"@) == (7nat, 'w', 'r'));
        assert(outline("clouds"@) == (6nat, 'c', 's'));
        assert(outline("wind"@) == (4nat, 'w', 'd'));
        assert(outline("visibility"@) == (10nat, 'v', 'y'));
        assert(outline("pop"@) == (3nat, 'p', 'p'));
        assert(outline("rain"@) == (4nat, 'r', 'n'));
        assert(outline("snow"@) == (4nat, 's', 'w'));
        assert(outline("sys"@) == (3nat, 's', 's'));
        lemma_member_at(members, "dt"@, 0);
        lemma_member_at(members, "dt_txt"@, 1);
        lemma_member_at(members, "main"@, 2);
        lemma_member_at(members, "weather"@, 3);
        lemma_member_at(members, "clouds"@, 4);
        lemma_member_at(members, "wind"@, 5);
        lemma_member_at(members, "visibility"@, 6);
        lemma_member_at(members, "pop"@, 7);
        lemma_member_at(members, "rain"@, 8);
        lemma_member_at(members, "snow"@, 9);
        lemma_member_at(members, "sys"@, 10);
        MainInformation::lemma_read_back(record.main);
        lemma_records_read_back::<WeatherCondition>(record.weather_conditions, "weather"@);
        Cloudiness::lemma_read_back(record.cloudiness);
        WindInformation::lemma_read_back(record.wind);
        if record.rainfall is Some {
            RainfallTotals::lemma_read_back(record.rainfall->Some_0);
        }
        if record.snowfall is Some {
            SnowfallTotals::lemma_read_back(record.snowfall->Some_0);
        }
        Forecast5Sys::lemma_read_back(record.sys);
    }

    proof fn lemma_needed(members: Seq<(Seq<char>, JsonView)>, name: Seq<char>) {
    }
}

/// What a [`Forecast5Sys`] holds, as plain mathematical data.
pub struct Forecast5SysView {
    pub part_of_day: Seq<char>,
}

/// The part of the day into which a forecast sample falls.
#[derive(Clone, Debug, PartialEq)]
pub struct Forecast5Sys {
    /// `n` for night, `d` for day.
    /// Written `pod` in the payload.
    pub part_of_day: String,
}

impl DeepView for Forecast5Sys {
    type V = Forecast5SysView;

    open spec fn deep_view(&self) -> Forecast5SysView {
        Forecast5SysView {
            part_of_day: self.part_of_day@,
        }
    }
}

impl View for Forecast5Sys {
    type V = Forecast5SysView;

    open spec fn view(&self) -> Forecast5SysView {
        self.deep_view()
    }
}

impl Record for Forecast5Sys {
    open spec fn needed() -> Set<Seq<char>> {
        set!["pod"@]
    }

    open spec fn from_members(members: Seq<(Seq<char>, JsonView)>) -> Result<
        Forecast5SysView,
        DecodeErrorView,
    > {
        let part_of_day = required_text(members, "pod"@);
        if part_of_day is Err {
            Err(part_of_day->Err_0)
        } else {
            Ok(
                Forecast5SysView {
                    part_of_day: part_of_day->Ok_0,
                },
            )
        }
    }

    open spec fn to_members(record: Forecast5SysView) -> Seq<(Seq<char>, JsonView)> {
        seq![
            ("pod"@, JsonView::Text(record.part_of_day)),
        ]
    }

    fn decode(members: &Vec<(String, Json)>) -> (decoded: Result<Forecast5Sys, DecodeError>) {
        let part_of_day = read_text(members, "pod")?;
        Ok(Forecast5Sys { part_of_day })
    }

    fn encode(&self) -> (members: Vec<(String, Json)>) {
        let mut members: Vec<(String, Json)> = Vec::new();
        members.push((String::from_str("pod"), write_text(&self.part_of_day)));
        assert(members_view(members@) =~= Self::to_members(self.deep_view()));
        members
    }

    proof fn lemma_read_back(record: Forecast5SysView) {
        let members = Self::to_members(record);
        reveal_strlit("pod");
        assert(outline("pod"@) == (3nat, 'p', 'd'));
        lemma_member_at(members, "pod"@, 0);
    }

    proof fn lemma_needed(members: Seq<(Seq<char>, JsonView)>, name: Seq<char>) {
    }
}

} // verus!
