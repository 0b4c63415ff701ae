//! The records that both payloads are made of.

use crate::error::{DecodeError, DecodeErrorView};
use crate::fields::{
    optional_number, optional_number_json, optional_u32, optional_u32_json, read_number,
    read_optional_number, read_optional_u32, read_text, read_u32, required_number, required_text,
    required_u32, whole_json, write_optional_number, write_optional_u32, write_text, write_unsigned,
};
use crate::json::{lemma_member_at, members_view, outline, Json, JsonView, Number};
use crate::record::Record;
use vstd::prelude::*;
use vstd::string::*;

verus! {

/// What a [`Coordinates`] holds, as plain mathematical data.
pub struct CoordinatesView {
    pub lat: Number,
    pub lon: Number,
}

/// A place on Earth by its coordinates.
#[derive(Clone, Copy, Debug, PartialEq)]
pub struct Coordinates {
    /// Latitude in decimal degrees.
    pub lat: Number,
    /// Longitude in decimal degrees.
    pub lon: Number,
}

impl DeepView for Coordinates {
    type V = CoordinatesView;

    open spec fn deep_view(&self) -> CoordinatesView {
        CoordinatesView {
            lat: self.lat,
            lon: self.lon,
        }
    }
}

impl View for Coordinates {
    type V = CoordinatesView;

    open spec fn view(&self) -> CoordinatesView {
        self.deep_view()
    }
}

impl Record for Coordinates {
    open spec fn needed() -> Set<Seq<char>> {
        set!["lat"@, "lon"@]
    }

    open spec fn from_members(members: Seq<(Seq<char>, JsonView)>) -> Result<
        CoordinatesView,
        DecodeErrorView,
    > {
        let lat = required_number(members, "lat"@);
        let lon = required_number(members, "lon"@);
        if lat is Err {
            Err(lat->Err_0)
        } else if lon is Err {
            Err(lon->Err_0)
        } else {
            Ok(
                CoordinatesView {
                    lat: lat->Ok_0,
                    lon: lon->Ok_0,
                },
            )
        }
    }

    open spec fn to_members(record: CoordinatesView) -> Seq<(Seq<char>, JsonView)> {
        seq![
            ("lat"@, JsonView::Number(record.lat)),
            ("lon"@, JsonView::Number(record.lon)),
        ]
    }

    fn decode(members: &Vec<(String, Json)>) -> (decoded: Result<Coordinates, DecodeError>) {
        let lat = read_number(members, "lat")?;
        let lon = read_number(members, "lon")?;
        Ok(Coordinates { lat, lon })
    }

    fn encode(&self) -> (members: Vec<(String, Json)>) {
        let mut members: Vec<(String, Json)> = Vec::new();
        members.push((String::from_str("lat"), Json::Number(self.lat)));
        members.push((String::from_str("lon"), Json::Number(self.lon)));
        assert(members_view(members@) =~= Self::to_members(self.deep_view()));
        members
    }

    proof fn lemma_read_back(record: CoordinatesView) {
        let members = Self::to_members(record);
        reveal_strlit("lat");
        reveal_strlit("lon");
        assert(outline("lat"@) == (3nat, 'l', 't'));
        assert(outline("lon"@) == (3nat, 'l', 'n'));
        lemma_member_at(members, "lat"@, 0);
        lemma_member_at(members, "lon"@, 1);
    }

    proof fn lemma_needed(members: Seq<(Seq<char>, JsonView)>, name: Seq<char>) {
    }
}

/// What a [`WeatherCondition`] holds, as plain mathematical data.
pub struct WeatherConditionView {
    pub id: u32,
    pub main: Seq<char>,
    pub description: Seq<char>,
    pub icon_id: Seq<char>,
}

/// A weather condition: a short description of the weather together with
/// the identifier of the icon that pictures it.
#[derive(Clone, Debug, PartialEq)]
pub struct WeatherCondition {
    /// Identifier of the condition.
    pub id: u32,
    /// Group of the condition, such as rain or snow.
    pub main: String,
    /// Description of the condition within its group.
    pub description: String,
    /// Identifier of the icon.
    /// Written `icon` in the payload.
    pub icon_id: String,
}

impl DeepView for WeatherCondition {
    type V = WeatherConditionView;

    open spec fn deep_view(&self) -> WeatherConditionView {
        WeatherConditionView {
            id: self.id,
            main: self.main@,
            description: self.description@,
            icon_id: self.icon_id@,
        }
    }
}

impl View for WeatherCondition {
    type V = WeatherConditionView;

    open spec fn view(&self) -> WeatherConditionView {
        self.deep_view()
    }
}

impl Record for WeatherCondition {
    open spec fn needed() -> Set<Seq<char>> {
        set!["id"@, "main"@, "description"@, "icon"@]
    }

    open spec fn from_members(members: Seq<(Seq<char>, JsonView)>) -> Result<
        WeatherConditionView,
        DecodeErrorView,
    > {
        let id = required_u32(members, "id"@);
        let main = required_text(members, "main"@);
        let description = required_text(members, "description"@);
        let icon_id = required_text(members, "icon"@);
        if id is Err {
            Err(id->Err_0)
        } else if main is Err {
            Err(main->Err_0)
        } else if description is Err {
            Err(description->Err_0)
        } else if icon_id is Err {
            Err(icon_id->Err_0)
        } else {
            Ok(
                WeatherConditionView {
                    id: id->Ok_0,
                    main: main->Ok_0,
                    description: description->Ok_0,
                    icon_id: icon_id->Ok_0,
                },
            )
        }
    }

    open spec fn to_members(record: WeatherConditionView) -> Seq<(Seq<char>, JsonView)> {
        seq![
            ("id"@, whole_json(record.id as int)),
            ("main"@, JsonView::Text(record.main)),
            ("description"@, JsonView::Text(record.description)),
            ("icon"@, JsonView::Text(record.icon_id)),
        ]
    }

    fn decode(members: &Vec<(String, Json)>) -> (decoded: Result<WeatherCondition, DecodeError>) {
        let id = read_u32(members, "id")?;
        let main = read_text(members, "main")?;
        let description = read_text(members, "description")?;
        let icon_id = read_text(members, "icon")?;
        Ok(WeatherCondition { id, main, description, icon_id })
    }

    fn encode(&self) -> (members: Vec<(String, Json)>) {
        let mut members: Vec<(String, Json)> = Vec::new();
        members.push((String::from_str("id"), write_unsigned(self.id as u64)));
        members.push((String::from_str("main"), write_text(&self.main)));
        members.push((String::from_str("description"), write_text(&self.description)));
        members.push((String::from_str("icon"), write_text(&self.icon_id)));
        assert(members_view(members@) =~= Self::to_members(self.deep_view()));
        members
    }

    proof fn lemma_read_back(record: WeatherConditionView) {
        let members = Self::to_members(record);
        reveal_strlit("id");
        reveal_strlit("main");
        reveal_strlit("description");
        reveal_strlit("icon");
        assert(outline("id"@) == (2nat, 'i', 'd'));
        assert(outline("main"@) == (4nat, 'm', 'n'));
        assert(outline("description"@) == (11nat, 'd', 'n'));
        assert(outline("icon"@) == (4nat, 'i', 'n'));
        lemma_member_at(members, "id"@, 0);
        lemma_member_at(members, "main"@, 1);
        lemma_member_at(members, "description"@, 2);
        lemma_member_at(members, "icon"@, 3);
    }

    proof fn lemma_needed(members: Seq<(Seq<char>, JsonView)>, name: Seq<char>) {
    }
}

/// What a [`MainInformation`] holds, as plain mathematical data.
pub struct MainInformationView {
    pub temp: Number,
    pub feels_like: Number,
    pub temp_min: Number,
    pub temp_max: Number,
    pub humidity: Number,
    pub pressure: Number,
    pub sea_level: Option<Number>,
    pub grnd_level: Option<Number>,
    pub temp_kf: Option<Number>,
}

/// The main measurements: temperature, pressure and humidity.
#[derive(Clone, Debug, PartialEq)]
pub struct MainInformation {
    /// Temperature, in the units asked for.
    pub temp: Number,
    /// Temperature as a person perceives it.
    pub feels_like: Number,
    /// Lowest temperature observed over the area at the moment.
    pub temp_min: Number,
    /// Highest temperature observed over the area at the moment.
    pub temp_max: Number,
    /// Humidity in percent.
    pub humidity: Number,
    /// Atmospheric pressure in hectopascals.
    pub pressure: Number,
    /// Atmospheric pressure at sea level in hectopascals.
    pub sea_level: Option<Number>,
    /// Atmospheric pressure at ground level in hectopascals.
    pub grnd_level: Option<Number>,
    /// A parameter of the service's own.
    pub temp_kf: Option<Number>,
}

impl DeepView for MainInformation {
    type V = MainInformationView;

    open spec fn deep_view(&self) -> MainInformationView {
        MainInformationView {
            temp: self.temp,
            feels_like: self.feels_like,
            temp_min: self.temp_min,
            temp_max: self.temp_max,
            humidity: self.humidity,
            pressure: self.pressure,
            sea_level: self.sea_level,
            grnd_level: self.grnd_level,
            temp_kf: self.temp_kf,
        }
    }
}

impl View for MainInformation {
    type V = MainInformationView;

    open spec fn view(&self) -> MainInformationView {
        self.deep_view()
    }
}

impl Record for MainInformation {
    open spec fn needed() -> Set<Seq<char>> {
        set!["temp"@, "feels_like"@, "temp_min"@, "temp_max"@, "humidity"@, "pressure"@]
    }

    open spec fn from_members(members: Seq<(Seq<char>, JsonView)>) -> Result<
        MainInformationView,
        DecodeErrorView,
    > {
        let temp = required_number(members, "temp"@);
        let feels_like = required_number(members, "feels_like"@);
        let temp_min = required_number(members, "temp_min"@);
        let temp_max = required_number(members, "temp_max"@);
        let humidity = required_number(members, "humidity"@);
        let pressure = required_number(members, "pressure"@);
        let sea_level = optional_number(members, "sea_level"@);
        let grnd_level = optional_number(members, "grnd_level"@);
        let temp_kf = optional_number(members, "temp_kf"@);
        if temp is Err {
            Err(temp->Err_0)
        } else if feels_like is Err {
            Err(feels_like->Err_0)
        } else if temp_min is Err {
            Err(temp_min->Err_0)
        } else if temp_max is Err {
            Err(temp_max->Err_0)
        } else if humidity is Err {
            Err(humidity->Err_0)
        } else if pressure is Err {
            Err(pressure->Err_0)
        } else if sea_level is Err {
            Err(sea_level->Err_0)
        } else if grnd_level is Err {
            Err(grnd_level->Err_0)
        } else if temp_kf is Err {
            Err(temp_kf->Err_0)
        } else {
            Ok(
                MainInformationView {
                    temp: temp->Ok_0,
                    feels_like: feels_like->Ok_0,
                    temp_min: temp_min->Ok_0,
                    temp_max: temp_max->Ok_0,
                    humidity: humidity->Ok_0,
                    pressure: pressure->Ok_0,
                    sea_level: sea_level->Ok_0,
                    grnd_level: grnd_level->Ok_0,
                    temp_kf: temp_kf->Ok_0,
                },
            )
        }
    }

    open spec fn to_members(record: MainInformationView) -> Seq<(Seq<char>, JsonView)> {
        seq![
            ("temp"@, JsonView::Number(record.temp)),
            ("feels_like"@, JsonView::Number(record.feels_like)),
            ("temp_min"@, JsonView::Number(record.temp_min)),
            ("temp_max"@, JsonView::Number(record.temp_max)),
            ("humidity"@, JsonView::Number(record.humidity)),
            ("pressure"@, JsonView::Number(record.pressure)),
            ("sea_level"@, optional_number_json(record.sea_level)),
            ("grnd_level"@, optional_number_json(record.grnd_level)),
            ("temp_kf"@, optional_number_json(record.temp_kf)),
        ]
    }

    fn decode(members: &Vec<(String, Json)>) -> (decoded: Result<MainInformation, DecodeError>) {
        let temp = read_number(members, "temp")?;
        let feels_like = read_number(members, "feels_like")?;
        let temp_min = read_number(members, "temp_min")?;
        let temp_max = read_number(members, "temp_max")?;
        let humidity = read_number(members, "humidity")?;
        let pressure = read_number(members, "pressure")?;
        let sea_level = read_optional_number(members, "sea_level")?;
        let grnd_level = read_optional_number(members, "grnd_level")?;
        let temp_kf = read_optional_number(members, "temp_kf")?;
        Ok(MainInformation {
            temp,
            feels_like,
            temp_min,
            temp_max,
            humidity,
            pressure,
            sea_level,
            grnd_level,
            temp_kf,
        })
    }

    fn encode(&self) -> (members: Vec<(String, Json)>) {
        let mut members: Vec<(String, Json)> = Vec::new();
        members.push((String::from_str("temp"), Json::Number(self.temp)));
        members.push((String::from_str("feels_like"), Json::Number(self.feels_like)));
        members.push((String::from_str("temp_min"), Json::Number(self.temp_min)));
        members.push((String::from_str("temp_max"), Json::Number(self.temp_max)));
        members.push((String::from_str("humidity"), Json::Number(self.humidity)));
        members.push((String::from_str("pressure"), Json::Number(self.pressure)));
        members.push((String::from_str("sea_level"), write_optional_number(self.sea_level)));
        members.push((String::from_str("grnd_level"), write_optional_number(self.grnd_level)));
        members.push((String::from_str("temp_kf"), write_optional_number(self.temp_kf)));
        assert(members_view(members@) =~= Self::to_members(self.deep_view()));
        members
    }

    proof fn lemma_read_back(record: MainInformationView) {
        let members = Self::to_members(record);
        reveal_strlit("temp");
        reveal_strlit("feels_like");
        reveal_strlit("temp_min");
        reveal_strlit("temp_max");
        reveal_strlit("humidity");
        reveal_strlit("pressure");
        reveal_strlit("sea_level");
        reveal_strlit("grnd_level");
        reveal_strlit("temp_kf");
        assert(outline("temp"@) == (4nat, 't', 'p'));
        assert(outline("feels_like"@) == (10nat, 'f', 'e'));
        assert(outline("temp_min"@) == (8nat, 't', 'n'));
        assert(outline("temp_max"@) == (8nat, 't', 'x'));
        assert(outline("humidity"@) == (8nat, 'h', 'y'));
        assert(outline("pressure"@) == (8nat, 'p', 'e'));
        assert(outline("sea_level"@) == (9nat, 's', 'l'));
        assert(outline("grnd_level"@) == (10nat, 'g', 'l'));
        assert(outline("temp_kf"@) == (7nat, 't', 'f'));
        lemma_member_at(members, "temp"@, 0);
        lemma_member_at(members, "feels_like"@, 1);
        lemma_member_at(members, "temp_min"@, 2);
        lemma_member_at(members, "temp_max"@, 3);
        lemma_member_at(members, "humidity"@, 4);
        lemma_member_at(members, "pressure"@, 5);
        lemma_member_at(members, "sea_level"@, 6);
        lemma_member_at(members, "grnd_level"@, 7);
        lemma_member_at(members, "temp_kf"@, 8);
    }

    proof fn lemma_needed(members: Seq<(Seq<char>, JsonView)>, name: Seq<char>) {
    }
}

/// What a [`WindInformation`] holds, as plain mathematical data.
pub struct WindInformationView {
    pub speed: Number,
    pub deg: Number,
    pub gust: Option<Number>,
}

/// The wind.
#[derive(Clone, Debug, PartialEq)]
pub struct WindInformation {
    /// Speed, in metres per second or miles per hour by the units asked for.
    pub speed: Number,
    /// Direction in degrees.
    pub deg: Number,
    /// Speed of gusts, in the unit of `speed`.
    pub gust: Option<Number>,
}

impl DeepView for WindInformation {
    type V = WindInformationView;

    open spec fn deep_view(&self) -> WindInformationView {
        WindInformationView {
            speed: self.speed,
            deg: self.deg,
            gust: self.gust,
        }
    }
}

impl View for WindInformation {
    type V = WindInformationView;

    open spec fn view(&self) -> WindInformationView {
        self.deep_view()
    }
}

impl Record for WindInformation {
    open spec fn needed() -> Set<Seq<char>> {
        set!["speed"@, "deg"@]
    }

    open spec fn from_members(members: Seq<(Seq<char>, JsonView)>) -> Result<
        WindInformationView,
        DecodeErrorView,
    > {
        let speed = required_number(members, "speed"@);
        let deg = required_number(members, "deg"@);
        let gust = optional_number(members, "gust"@);
        if speed is Err {
            Err(speed->Err_0)
        } else if deg is Err {
            Err(deg->Err_0)
        } else if gust is Err {
            Err(gust->Err_0)
        } else {
            Ok(
                WindInformationView {
                    speed: speed->Ok_0,
                    deg: deg->Ok_0,
                    gust: gust->Ok_0,
                },
            )
        }
    }

    open spec fn to_members(record: WindInformationView) -> Seq<(Seq<char>, JsonView)> {
        seq![
            ("speed"@, JsonView::Number(record.speed)),
            ("deg"@, JsonView::Number(record.deg)),
            ("gust"@, optional_number_json(record.gust)),
        ]
    }

    fn decode(members: &Vec<(String, Json)>) -> (decoded: Result<WindInformation, DecodeError>) {
        let speed = read_number(members, "speed")?;
        let deg = read_number(members, "deg")?;
        let gust = read_optional_number(members, "gust")?;
        Ok(WindInformation { speed, deg, gust })
    }

    fn encode(&self) -> (members: Vec<(String, Json)>) {
        let mut members: Vec<(String, Json)> = Vec::new();
        members.push((String::from_str("speed"), Json::Number(self.speed)));
        members.push((String::from_str("deg"), Json::Number(self.deg)));
        members.push((String::from_str("gust"), write_optional_number(self.gust)));
        assert(members_view(members@) =~= Self::to_members(self.deep_view()));
        members
    }

    proof fn lemma_read_back(record: WindInformationView) {
        let members = Self::to_members(record);
        reveal_strlit("speed");
        reveal_strlit("deg");
        reveal_strlit("gust");
        assert(outline("speed"@) == (5nat, 's', 'd'));
        assert(outline("deg"@) == (3nat, 'd', 'g'));
        assert(outline("gust"@) == (4nat, 'g', 't'));
        lemma_member_at(members, "speed"@, 0);
        lemma_member_at(members, "deg"@, 1);
        lemma_member_at(members, "gust"@, 2);
    }

    proof fn lemma_needed(members: Seq<(Seq<char>, JsonView)>, name: Seq<char>) {
    }
}

/// What a [`RainfallTotals`] holds, as plain mathematical data.
pub struct RainfallTotalsView {
    pub last_1h: Option<Number>,
    pub last_3h: Option<Number>,
}

/// How much rain fell, where the service reports it.
#[derive(Clone, Debug, PartialEq)]
pub struct RainfallTotals {
    /// Rain over the last hour.
    /// Written `1h` in the payload.
    pub last_1h: Option<Number>,
    /// Rain over the last three hours.
    /// Written `3h` in the payload.
    pub last_3h: Option<Number>,
}

impl DeepView for RainfallTotals {
    type V = RainfallTotalsView;

    open spec fn deep_view(&self) -> RainfallTotalsView {
        RainfallTotalsView {
            last_1h: self.last_1h,
            last_3h: self.last_3h,
        }
    }
}

impl View for RainfallTotals {
    type V = RainfallTotalsView;

    open spec fn view(&self) -> RainfallTotalsView {
        self.deep_view()
    }
}

impl Record for RainfallTotals {
    open spec fn needed() -> Set<Seq<char>> {
        Set::empty()
    }

    open spec fn from_members(members: Seq<(Seq<char>, JsonView)>) -> Result<
        RainfallTotalsView,
        DecodeErrorView,
    > {
        let last_1h = optional_number(members, "1h"@);
        let last_3h = optional_number(members, "3h"@);
        if last_1h is Err {
            Err(last_1h->Err_0)
        } else if last_3h is Err {
            Err(last_3h->Err_0)
        } else {
            Ok(
                RainfallTotalsView {
                    last_1h: last_1h->Ok_0,
                    last_3h: last_3h->Ok_0,
                },
            )
        }
    }

    open spec fn to_members(record: RainfallTotalsView) -> Seq<(Seq<char>, JsonView)> {
        seq![
            ("1h"@, optional_number_json(record.last_1h)),
            ("3h"@, optional_number_json(record.last_3h)),
        ]
    }

    fn decode(members: &Vec<(String, Json)>) -> (decoded: Result<RainfallTotals, DecodeError>) {
        let last_1h = read_optional_number(members, "1h")?;
        let last_3h = read_optional_number(members, "3h")?;
        Ok(RainfallTotals { last_1h, last_3h })
    }

    fn encode(&self) -> (members: Vec<(String, Json)>) {
        let mut members: Vec<(String, Json)> = Vec::new();
        members.push((String::from_str("1h"), write_optional_number(self.last_1h)));
        members.push((String::from_str("3h"), write_optional_number(self.last_3h)));
        assert(members_view(members@) =~= Self::to_members(self.deep_view()));
        members
    }

    proof fn lemma_read_back(record: RainfallTotalsView) {
        let members = Self::to_members(record);
        reveal_strlit("1h");
        reveal_strlit("3h");
        assert(outline("1h"@) == (2nat, '1', 'h'));
        assert(outline("3h"@) == (2nat, '3', 'h'));
        lemma_member_at(members, "1h"@, 0);
        lemma_member_at(members, "3h"@, 1);
    }

    proof fn lemma_needed(members: Seq<(Seq<char>, JsonView)>, name: Seq<char>) {
    }
}

/// What a [`SnowfallTotals`] holds, as plain mathematical data.
pub struct SnowfallTotalsView {
    pub last_1h: Option<Number>,
    pub last_3h: Option<Number>,
}

/// How much snow fell, where the service reports it.
#[derive(Clone, Debug, PartialEq)]
pub struct SnowfallTotals {
    /// Snow over the last hour.
    /// Written `1h` in the payload.
    pub last_1h: Option<Number>,
    /// Snow over the last three hours.
    /// Written `3h` in the payload.
    pub last_3h: Option<Number>,
}

impl DeepView for SnowfallTotals {
    type V = SnowfallTotalsView;

    open spec fn deep_view(&self) -> SnowfallTotalsView {
        SnowfallTotalsView {
            last_1h: self.last_1h,
            last_3h: self.last_3h,
        }
    }
}

impl View for SnowfallTotals {
    type V = SnowfallTotalsView;

    open spec fn view(&self) -> SnowfallTotalsView {
        self.deep_view()
    }
}

impl Record for SnowfallTotals {
    open spec fn needed() -> Set<Seq<char>> {
        Set::empty()
    }

    open spec fn from_members(members: Seq<(Seq<char>, JsonView)>) -> Result<
        SnowfallTotalsView,
        DecodeErrorView,
    > {
        let last_1h = optional_number(members, "1h"@);
        let last_3h = optional_number(members, "3h"@);
        if last_1h is Err {
            Err(last_1h->Err_0)
        } else if last_3h is Err {
            Err(last_3h->Err_0)
        } else {
            Ok(
                SnowfallTotalsView {
                    last_1h: last_1h->Ok_0,
                    last_3h: last_3h->Ok_0,
                },
            )
        }
    }

    open spec fn to_members(record: SnowfallTotalsView) -> Seq<(Seq<char>, JsonView)> {
        seq![
            ("1h"@, optional_number_json(record.last_1h)),
            ("3h"@, optional_number_json(record.last_3h)),
        ]
    }

    fn decode(members: &Vec<(String, Json)>) -> (decoded: Result<SnowfallTotals, DecodeError>) {
        let last_1h = read_optional_number(members, "1h")?;
        let last_3h = read_optional_number(members, "3h")?;
        Ok(SnowfallTotals { last_1h, last_3h })
    }

    fn encode(&self) -> (members: Vec<(String, Json)>) {
        let mut members: Vec<(String, Json)> = Vec::new();
        members.push((String::from_str("1h"), write_optional_number(self.last_1h)));
        members.push((String::from_str("3h"), write_optional_number(self.last_3h)));
        assert(members_view(members@) =~= Self::to_members(self.deep_view()));
        members
    }

    proof fn lemma_read_back(record: SnowfallTotalsView) {
        let members = Self::to_members(record);
        reveal_strlit("1h");
        reveal_strlit("3h");
        assert(outline("1h"@) == (2nat, '1', 'h'));
        assert(outline("3h"@) == (2nat, '3', 'h'));
        lemma_member_at(members, "1h"@, 0);
        lemma_member_at(members, "3h"@, 1);
    }

    proof fn lemma_needed(members: Seq<(Seq<char>, JsonView)>, name: Seq<char>) {
    }
}

/// What a [`Cloudiness`] holds, as plain mathematical data.
pub struct CloudinessView {
    pub percentage: Option<u32>,
}

/// How much of the sky is covered.
#[derive(Clone, Debug, PartialEq)]
pub struct Cloudiness {
    /// Cloud cover in percent.
    /// Written `all` in the payload.
    pub percentage: Option<u32>,
}

impl DeepView for Cloudiness {
    type V = CloudinessView;

    open spec fn deep_view(&self) -> CloudinessView {
        CloudinessView {
            percentage: self.percentage,
        }
    }
}

impl View for Cloudiness {
    type V = CloudinessView;

    open spec fn view(&self) -> CloudinessView {
        self.deep_view()
    }
}

impl Record for Cloudiness {
    open spec fn needed() -> Set<Seq<char>> {
        Set::empty()
    }

    open spec fn from_members(members: Seq<(Seq<char>, JsonView)>) -> Result<
        CloudinessView,
        DecodeErrorView,
    > {
        let percentage = optional_u32(members, "all"@);
        if percentage is Err {
            Err(percentage->Err_0)
        } else {
            Ok(
                CloudinessView {
                    percentage: percentage->Ok_0,
                },
            )
        }
    }

    open spec fn to_members(record: CloudinessView) -> Seq<(Seq<char>, JsonView)> {
        seq![
            ("all"@, optional_u32_json(record.percentage)),
        ]
    }

    fn decode(members: &Vec<(String, Json)>) -> (decoded: Result<Cloudiness, DecodeError>) {
        let percentage = read_optional_u32(members, "all")?;
        Ok(Cloudiness { percentage })
    }

    fn encode(&self) -> (members: Vec<(String, Json)>) {
        let mut members: Vec<(String, Json)> = Vec::new();
        members.push((String::from_str("all"), write_optional_u32(self.percentage)));
        assert(members_view(members@) =~= Self::to_members(self.deep_view()));
        members
    }

    proof fn lemma_read_back(record: CloudinessView) {
        let members = Self::to_members(record);
        reveal_strlit("all");
        assert(outline("all"@) == (3nat, 'a', 'l'));
        lemma_member_at(members, "all"@, 0);
    }

    proof fn lemma_needed(members: Seq<(Seq<char>, JsonView)>, name: Seq<char>) {
    }
}

} // verus!
