//! The payload of the `weather` endpoint.

use crate::error::{DecodeError, DecodeErrorView};
use crate::fields::{
    optional_i32, optional_i32_json, optional_text, optional_text_json, optional_u32,
    optional_u32_json, read_i32, read_i64, read_optional_i32, read_optional_text, read_optional_u32,
    read_text, read_u32, required_i32, required_i64, required_text, required_u32, whole_json,
    write_optional_i32, write_optional_text, write_optional_u32, write_signed, write_text,
    write_unsigned,
};
use crate::json::{lemma_member_at, members_view, outline, Json, JsonView};
use crate::models::common::{
    Cloudiness, CloudinessView, Coordinates, CoordinatesView, MainInformation, MainInformationView,
    RainfallTotals, RainfallTotalsView, SnowfallTotals, SnowfallTotalsView, WeatherCondition,
    WeatherConditionView, WindInformation, WindInformationView,
};
use crate::record::{
    lemma_records_read_back, optional_record, optional_record_json, read_optional_record,
    read_record, read_records, record_json, records_json, required_record, required_records,
    write_optional_record, write_record, write_records, Record,
};
use vstd::prelude::*;
use vstd::string::*;

verus! {

/// What a [`CurrentWeatherPayload`] holds, as plain mathematical data.
pub struct CurrentWeatherPayloadView {
    pub coord: CoordinatesView,
    pub weather_conditions: Seq<WeatherConditionView>,
    pub base: Option<Seq<char>>,
    pub main: MainInformationView,
    pub visibility: Option<u32>,
    pub wind: WindInformationView,
    pub rainfall: Option<RainfallTotalsView>,
    pub snowfall: Option<SnowfallTotalsView>,
    pub cloudiness: CloudinessView,
    pub dt_unix_timestamp: u32,
    pub sys: CurrentWeatherSysView,
    pub timezone: Option<i32>,
    pub city_id: i32,
    pub city_name: Seq<char>,
    pub cod: Option<u32>,
}

/// What the `weather` endpoint answers: the current weather at one place.
#[derive(Clone, Debug, PartialEq)]
pub struct CurrentWeatherPayload {
    /// Where the weather was observed.
    pub coord: Coordinates,
    /// The conditions that describe the weather.
    /// Written `weather` in the payload.
    pub weather_conditions: Vec<WeatherCondition>,
    /// A parameter of the service's own.
    pub base: Option<String>,
    /// Temperature, pressure and humidity.
    pub main: MainInformation,
    /// Visibility in metres, at most 10000.
    pub visibility: Option<u32>,
    /// The wind.
    pub wind: WindInformation,
    /// Rain, where any is reported.
    /// Written `rain` in the payload.
    pub rainfall: Option<RainfallTotals>,
    /// Snow, where any is reported.
    /// Written `snow` in the payload.
    pub snowfall: Option<SnowfallTotals>,
    /// Cloud cover.
    /// Written `clouds` in the payload.
    pub cloudiness: Cloudiness,
    /// When the data was computed, in seconds since the Unix epoch, UTC.
    /// Written `dt` in the payload.
    pub dt_unix_timestamp: u32,
    /// Country and daylight.
    pub sys: CurrentWeatherSys,
    /// Shift of the local time from UTC in seconds.
    pub timezone: Option<i32>,
    /// Identifier of the city.
    /// Written `id` in the payload.
    pub city_id: i32,
    /// Name of the city.
    /// Written `name` in the payload.
    pub city_name: String,
    /// A status code of the service's own; on this endpoint a number.
    pub cod: Option<u32>,
}

impl DeepView for CurrentWeatherPayload {
    type V = CurrentWeatherPayloadView;

    open spec fn deep_view(&self) -> CurrentWeatherPayloadView {
        CurrentWeatherPayloadView {
            coord: self.coord.deep_view(),
            weather_conditions: self.weather_conditions.deep_view(),
            base: self.base.deep_view(),
            main: self.main.deep_view(),
            visibility: self.visibility,
            wind: self.wind.deep_view(),
            rainfall: self.rainfall.deep_view(),
            snowfall: self.snowfall.deep_view(),
            cloudiness: self.cloudiness.deep_view(),
            dt_unix_timestamp: self.dt_unix_timestamp,
            sys: self.sys.deep_view(),
            timezone: self.timezone,
            city_id: self.city_id,
            city_name: self.city_name@,
            cod: self.cod,
        }
    }
}

impl View for CurrentWeatherPayload {
    type V = CurrentWeatherPayloadView;

    open spec fn view(&self) -> CurrentWeatherPayloadView {
        self.deep_view()
    }
}

impl Record for CurrentWeatherPayload {
    open spec fn needed() -> Set<Seq<char>> {
        set!["coord"@, "weather"@, "main"@, "wind"@, "clouds"@, "dt"@, "sys"@, "id"@, "name"@]
    }

    open spec fn from_members(members: Seq<(Seq<char>, JsonView)>) -> Result<
        CurrentWeatherPayloadView,
        DecodeErrorView,
    > {
        let coord = required_record::<Coordinates>(members, "coord"@);
        let weather_conditions = required_records::<WeatherCondition>(members, "weather"@);
        let base = optional_text(members, "base"@);
        let main = required_record::<MainInformation>(members, "main"@);
        let visibility = optional_u32(members, "visibility"@);
        let wind = required_record::<WindInformation>(members, "wind"@);
        let rainfall = optional_record::<RainfallTotals>(members, "rain"@);
        let snowfall = optional_record::<SnowfallTotals>(members, "snow"@);
        let cloudiness = required_record::<Cloudiness>(members, "clouds"@);
        let dt_unix_timestamp = required_u32(members, "dt"@);
        let sys = required_record::<CurrentWeatherSys>(members, "sys"@);
        let timezone = optional_i32(members, "timezone"@);
        let city_id = required_i32(members, "id"@);
        let city_name = required_text(members, "name"@);
        let cod = optional_u32(members, "cod"@);
        if coord is Err {
            Err(coord->Err_0)
        } else if weather_conditions is Err {
            Err(weather_conditions->Err_0)
        } else if base is Err {
            Err(base->Err_0)
        } else if main is Err {
            Err(main->Err_0)
        } else if visibility is Err {
            Err(visibility->Err_0)
        } else if wind is Err {
            Err(wind->Err_0)
        } else if rainfall is Err {
            Err(rainfall->Err_0)
        } else if snowfall is Err {
            Err(snowfall->Err_0)
        } else if cloudiness is Err {
            Err(cloudiness->Err_0)
        } else if dt_unix_timestamp is Err {
            Err(dt_unix_timestamp->Err_0)
        } else if sys is Err {
            Err(sys->Err_0)
        } else if timezone is Err {
            Err(timezone->Err_0)
        } else if city_id is Err {
            Err(city_id->Err_0)
        } else if city_name is Err {
            Err(city_name->Err_0)
        } else if cod is Err {
            Err(cod->Err_0)
        } else {
            Ok(
                CurrentWeatherPayloadView {
                    coord: coord->Ok_0,
                    weather_conditions: weather_conditions->Ok_0,
                    base: base->Ok_0,
                    main: main->Ok_0,
                    visibility: visibility->Ok_0,
                    wind: wind->Ok_0,
                    rainfall: rainfall->Ok_0,
                    snowfall: snowfall->Ok_0,
                    cloudiness: cloudiness->Ok_0,
                    dt_unix_timestamp: dt_unix_timestamp->Ok_0,
                    sys: sys->Ok_0,
                    timezone: timezone->Ok_0,
                    city_id: city_id->Ok_0,
                    city_name: city_name->Ok_0,
                    cod: cod->Ok_0,
                },
            )
        }
    }

    open spec fn to_members(record: CurrentWeatherPayloadView) -> Seq<(Seq<char>, JsonView)> {
        seq![
            ("coord"@, record_json::<Coordinates>(record.coord)),
            ("weather"@, records_json::<WeatherCondition>(record.weather_conditions)),
            ("base"@, optional_text_json(record.base)),
            ("main"@, record_json::<MainInformation>(record.main)),
            ("visibility"@, optional_u32_json(record.visibility)),
            ("wind"@, record_json::<WindInformation>(record.wind)),
            ("rain"@, optional_record_json::<RainfallTotals>(record.rainfall)),
            ("snow"@, optional_record_json::<SnowfallTotals>(record.snowfall)),
            ("clouds"@, record_json::<Cloudiness>(record.cloudiness)),
            ("dt"@, whole_json(record.dt_unix_timestamp as int)),
            ("sys"@, record_json::<CurrentWeatherSys>(record.sys)),
            ("timezone"@, optional_i32_json(record.timezone)),
            ("id"@, whole_json(record.city_id as int)),
            ("name"@, JsonView::Text(record.city_name)),
            ("cod"@, optional_u32_json(record.cod)),
        ]
    }

    fn decode(members: &Vec<(String, Json)>) -> (decoded: Result<CurrentWeatherPayload, DecodeError>) {
        let coord = read_record::<Coordinates>(members, "coord")?;
        let weather_conditions = read_records::<WeatherCondition>(members, "weather")?;
        let base = read_optional_text(members, "base")?;
        let main = read_record::<MainInformation>(members, "main")?;
        let visibility = read_optional_u32(members, "visibility")?;
        let wind = read_record::<WindInformation>(members, "wind")?;
        let rainfall = read_optional_record::<RainfallTotals>(members, "rain")?;
        let snowfall = read_optional_record::<SnowfallTotals>(members, "snow")?;
        let cloudiness = read_record::<Cloudiness>(members, "clouds")?;
        let dt_unix_timestamp = read_u32(members, "dt")?;
        let sys = read_record::<CurrentWeatherSys>(members, "sys")?;
        let timezone = read_optional_i32(members, "timezone")?;
        let city_id = read_i32(members, "id")?;
        let city_name = read_text(members, "name")?;
        let cod = read_optional_u32(members, "cod")?;
        Ok(CurrentWeatherPayload {
            coord,
            weather_conditions,
            base,
            main,
            visibility,
            wind,
            rainfall,
            snowfall,
            cloudiness,
            dt_unix_timestamp,
            sys,
            timezone,
            city_id,
            city_name,
            cod,
        })
    }

    fn encode(&self) -> (members: Vec<(String, Json)>) {
        let mut members: Vec<(String, Json)> = Vec::new();
        members.push((String::from_str("coord"), write_record::<Coordinates>(&self.coord)));
        members.push(
            (String::from_str("weather"), write_records::<WeatherCondition>(&self.weather_conditions)),
        );
        members.push((String::from_str("base"), write_optional_text(&self.base)));
        members.push((String::from_str("main"), write_record::<MainInformation>(&self.main)));
        members.push((String::from_str("visibility"), write_optional_u32(self.visibility)));
        members.push((String::from_str("wind"), write_record::<WindInformation>(&self.wind)));
        members.push(
            (String::from_str("rain"), write_optional_record::<RainfallTotals>(&self.rainfall)),
        );
        members.push(
            (String::from_str("snow"), write_optional_record::<SnowfallTotals>(&self.snowfall)),
        );
        members.push((String::from_str("clouds"), write_record::<Cloudiness>(&self.cloudiness)));
        members.push((String::from_str("dt"), write_unsigned(self.dt_unix_timestamp as u64)));
        members.push((String::from_str("sys"), write_record::<CurrentWeatherSys>(&self.sys)));
        members.push((String::from_str("timezone"), write_optional_i32(self.timezone)));
        members.push((String::from_str("id"), write_signed(self.city_id as i64)));
        members.push((String::from_str("name"), write_text(&self.city_name)));
        members.push((String::from_str("cod"), write_optional_u32(self.cod)));
        assert(members_view(members@) =~= Self::to_members(self.deep_view()));
        members
    }

    proof fn lemma_read_back(record: CurrentWeatherPayloadView) {
        let members = Self::to_members(record);
        reveal_strlit("coord");
        reveal_strlit("weather");
        reveal_strlit("base");
        reveal_strlit("main");
        reveal_strlit("visibility");
        reveal_strlit("wind");
        reveal_strlit("rain");
        reveal_strlit("snow");
        reveal_strlit("clouds");
        reveal_strlit("dt");
        reveal_strlit("sys");
        reveal_strlit("timezone");
        reveal_strlit("id");
        reveal_strlit("name");
        reveal_strlit("cod");
        assert(outline("coord"@) == (5nat, 'c', 'd'));
        assert(outline("weather"@) == (7nat, 'w', 'r'));
        assert(outline("base"@) == (4nat, 'b', 'e'));
        assert(outline("main"@) == (4nat, 'm', 'n'));
        assert(outline("visibility"@) == (10nat, 'v', 'y'));
        assert(outline("wind"@) == (4nat, 'w', 'd'));
        assert(outline("rain"@) == (4nat, 'r', 'n'));
        assert(outline("snow"@) == (4nat, 's', 'w'));
        assert(outline("clouds"@) == (6nat, 'c', 's'));
        assert(outline("dt"@) == (2nat, 'd', 't'));
        assert(outline("sys"@) == (3nat, 's', 's'));
        assert(outline("timezone"@) == (8nat, 't', 'e'));
        assert(outline("id"@) == (2nat, 'i', 'd'));
        assert(outline("name"@) == (4nat, 'n', 'e'));
        assert(outline("cod"@) == (3nat, 'c', 'd'));
        lemma_member_at(members, "coord"@, 0);
        lemma_member_at(members, "weather"@, 1);
        lemma_member_at(members, "base"@, 2);
        lemma_member_at(members, "main"@, 3);
        lemma_member_at(members, "visibility"@, 4);
        lemma_member_at(members, "wind"@, 5);
        lemma_member_at(members, "rain"@, 6);
        lemma_member_at(members, "snow"@, 7);
        lemma_member_at(members, "clouds"@, 8);
        lemma_member_at(members, "dt"@, 9);
        lemma_member_at(members, "sys"@, 10);
        lemma_member_at(members, "timezone"@, 11);
        lemma_member_at(members, "id"@, 12);
        lemma_member_at(members, "name"@, 13);
        lemma_member_at(members, "cod"@, 14);
        Coordinates::lemma_read_back(record.coord);
        lemma_records_read_back::<WeatherCondition>(record.weather_conditions, "weather"@);
        MainInformation::lemma_read_back(record.main);
        WindInformation::lemma_read_back(record.wind);
        if record.rainfall is Some {
            RainfallTotals::lemma_read_back(record.rainfall->Some_0);
        }
        if record.snowfall is Some {
            SnowfallTotals::lemma_read_back(record.snowfall->Some_0);
        }
        Cloudiness::lemma_read_back(record.cloudiness);
        CurrentWeatherSys::lemma_read_back(record.sys);
    }

    proof fn lemma_needed(members: Seq<(Seq<char>, JsonView)>, name: Seq<char>) {
    }
}

/// What a [`CurrentWeatherSys`] holds, as plain mathematical data.
pub struct CurrentWeatherSysView {
    pub message_type: Option<u32>,
    pub id: Option<u32>,
    pub country: Seq<char>,
    pub sunrise_timestamp: i64,
    pub sunset_timestamp: i64,
}

/// Country and daylight of the place of a current-weather payload, with
/// two parameters of the service's own.
#[derive(Clone, Debug, PartialEq)]
pub struct CurrentWeatherSys {
    /// A parameter of the service's own.
    /// Written `type` in the payload.
    pub message_type: Option<u32>,
    /// A parameter of the service's own.
    pub id: Option<u32>,
    /// Country code.
    pub country: String,
    /// Sunrise, in seconds since the Unix epoch, UTC.
    /// Written `sunrise` in the payload.
    pub sunrise_timestamp: i64,
    /// Sunset, in seconds since the Unix epoch, UTC.
    /// Written `sunset` in the payload.
    pub sunset_timestamp: i64,
}

impl DeepView for CurrentWeatherSys {
    type V = CurrentWeatherSysView;

    open spec fn deep_view(&self) -> CurrentWeatherSysView {
        CurrentWeatherSysView {
            message_type: self.message_type,
            id: self.id,
            country: self.country@,
            sunrise_timestamp: self.sunrise_timestamp,
            sunset_timestamp: self.sunset_timestamp,
        }
    }
}

impl View for CurrentWeatherSys {
    type V = CurrentWeatherSysView;

    open spec fn view(&self) -> CurrentWeatherSysView {
        self.deep_view()
    }
}

impl Record for CurrentWeatherSys {
    open spec fn needed() -> Set<Seq<char>> {
        set!["country"@, "sunrise"@, "sunset"@]
    }

    open spec fn from_members(members: Seq<(Seq<char>, JsonView)>) -> Result<
        CurrentWeatherSysView,
        DecodeErrorView,
    > {
        let message_type = optional_u32(members, "type"@);
        let id = optional_u32(members, "id"@);
        let country = required_text(members, "country"@);
        let sunrise_timestamp = required_i64(members, "sunrise"@);
        let sunset_timestamp = required_i64(members, "sunset"@);
        if message_type is Err {
            Err(message_type->Err_0)
        } else if id is Err {
            Err(id->Err_0)
        } else if country is Err {
            Err(country->Err_0)
        } else if sunrise_timestamp is Err {
            Err(sunrise_timestamp->Err_0)
        } else if sunset_timestamp is Err {
            Err(sunset_timestamp->Err_0)
        } else {
            Ok(
                CurrentWeatherSysView {
                    message_type: message_type->Ok_0,
                    id: id->Ok_0,
                    country: country->Ok_0,
                    sunrise_timestamp: sunrise_timestamp->Ok_0,
                    sunset_timestamp: sunset_timestamp->Ok_0,
                },
            )
        }
    }

    open spec fn to_members(record: CurrentWeatherSysView) -> Seq<(Seq<char>, JsonView)> {
        seq![
            ("type"@, optional_u32_json(record.message_type)),
            ("id"@, optional_u32_json(record.id)),
            ("country"@, JsonView::Text(record.country)),
            ("sunrise"@, whole_json(record.sunrise_timestamp as int)),
            ("sunset"@, whole_json(record.sunset_timestamp as int)),
        ]
    }

    fn decode(members: &Vec<(String, Json)>) -> (decoded: Result<CurrentWeatherSys, DecodeError>) {
        let message_type = read_optional_u32(members, "type")?;
        let id = read_optional_u32(members, "id")?;
        let country = read_text(members, "country")?;
        let sunrise_timestamp = read_i64(members, "sunrise")?;
        let sunset_timestamp = read_i64(members, "sunset")?;
        Ok(CurrentWeatherSys { message_type, id, country, sunrise_timestamp, sunset_timestamp })
    }

    fn encode(&self) -> (members: Vec<(String, Json)>) {
        let mut members: Vec<(String, Json)> = Vec::new();
        members.push((String::from_str("type"), write_optional_u32(self.message_type)));
        members.push((String::from_str("id"), write_optional_u32(self.id)));
        members.push((String::from_str("country"), write_text(&self.country)));
        members.push((String::from_str("sunrise"), write_signed(self.sunrise_timestamp)));
        members.push((String::from_str("sunset"), write_signed(self.sunset_timestamp)));
        assert(members_view(members@) =~= Self::to_members(self.deep_view()));
        members
    }

    proof fn lemma_read_back(record: CurrentWeatherSysView) {
        let members = Self::to_members(record);
        reveal_strlit("type");
        reveal_strlit("id");
        reveal_strlit("country");
        reveal_strlit("sunrise");
        reveal_strlit("sunset");
        assert(outline("type"@) == (4nat, 't', 'e'));
        assert(outline("id"@) == (2nat, 'i', 'd'));
        assert(outline("country"@) == (7nat, 'c', 'y'));
        assert(outline("sunrise"@) == (7nat, 's', 'e'));
        assert(outline("sunset"@) == (6nat, 's', 't'));
        lemma_member_at(members, "type"@, 0);
        lemma_member_at(members, "id"@, 1);
        lemma_member_at(members, "country"@, 2);
        lemma_member_at(members, "sunrise"@, 3);
        lemma_member_at(members, "sunset"@, 4);
    }

    proof fn lemma_needed(members: Seq<(Seq<char>, JsonView)>, name: Seq<char>) {
    }
}

} // verus!
