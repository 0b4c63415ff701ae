//! The client: its configuration and the requests it builds.

use crate::decimal::{decimal_digits, decimal_text};
use crate::request::{UnsentRequest, UnsentRequestView};
pub use crate::units::Units;
use vstd::prelude::*;
use vstd::string::*;

verus! {

/// The address under which every endpoint of the service lives.
pub open spec fn api_base_url() -> Seq<char> {
    "https://api.openweathermap.org/data/2.5/"@
}

/// The two parameters that every request carries, in the order in which
/// they are sent: the API key, then the measurement system.
pub open spec fn fixed_params(api_key: Seq<char>, units: Units) -> Seq<(Seq<char>, Seq<char>)> {
    seq![("appid"@, api_key), ("units"@, units.token())]
}

/// The parameters that name a place by its coordinates, given as decimal
/// texts: latitude, then longitude.
pub open spec fn coordinate_params(lat: Seq<char>, lon: Seq<char>) -> Seq<(Seq<char>, Seq<char>)> {
    seq![("lat"@, lat), ("lon"@, lon)]
}

/// The parameter that names a place by its city identifier.
pub open spec fn city_id_params(city_id: u32) -> Seq<(Seq<char>, Seq<char>)> {
    seq![("id"@, decimal_digits(city_id as nat))]
}

/// The parameter that caps the number of forecast samples, where a cap is
/// asked for.
pub open spec fn count_params(cnt: Option<usize>) -> Seq<(Seq<char>, Seq<char>)> {
    match cnt {
        Some(count) => seq![("cnt"@, decimal_digits(count as nat))],
        None => seq![],
    }
}

/// What a client holds, as plain mathematical values.
pub struct ClientView {
    /// The API key that the client sends.
    pub api_key: Seq<char>,
    /// The measurement system in which the service is asked to answer.
    pub units: Units,
}

/// A client of the OpenWeatherMap service: the API key and the measurement
/// system that go into every request.
#[derive(Clone, Debug)]
pub struct OpenWeatherClient {
    api_key: String,
    /// The measurement system in which the service is asked to answer.
    pub units: Units,
}

impl View for OpenWeatherClient {
    type V = ClientView;

    closed spec fn view(&self) -> ClientView {
        ClientView { api_key: self.api_key@, units: self.units }
    }
}

impl OpenWeatherClient {
    /// The address under which every endpoint of the service lives.
    pub const API_BASE_URL: &'static str = "https://api.openweathermap.org/data/2.5/";

    /// The request that this client sends to `endpoint` with the given
    /// endpoint-specific parameters: the address is the base address followed
    /// by the endpoint, and the fixed parameters precede the specific ones.
    pub open spec fn request_for(
        &self,
        endpoint: Seq<char>,
        extra_params: Seq<(Seq<char>, Seq<char>)>,
    ) -> UnsentRequestView {
        UnsentRequestView {
            address: api_base_url() + endpoint,
            params: fixed_params(self@.api_key, self@.units) + extra_params,
        }
    }

    /// Whatever the endpoint and its parameters, the query of a request starts
    /// with the API key under `appid`, then the measurement system's token
    /// under `units`, and the endpoint's parameters follow in their order.
    pub proof fn lemma_fixed_params_first(
        &self,
        endpoint: Seq<char>,
        extra_params: Seq<(Seq<char>, Seq<char>)>,
    )
        ensures
            self.request_for(endpoint, extra_params).params.len() == extra_params.len() + 2,
            self.request_for(endpoint, extra_params).params[0] == ("appid"@, self@.api_key),
            self.request_for(endpoint, extra_params).params[1] == (
                "units"@,
                self@.units.token(),
            ),
            forall|i: int|
                0 <= i < extra_params.len() ==> #[trigger] self.request_for(
                    endpoint,
                    extra_params,
                ).params[i + 2] == extra_params[i],
    {
    }

    /// Makes a client from an API key and a measurement system. The key is
    /// taken as it is; only the service can tell whether it is valid.
    pub fn new(api_key: String, units: Units) -> (client: OpenWeatherClient)
        ensures
            client@ == (ClientView { api_key: api_key@, units }),
    {
        OpenWeatherClient { api_key, units }
    }

    /// Builds the request for `endpoint`: the query starts with the API key
    /// and the measurement system, and `extra_params` follow in their order.
    /// Nothing is sent.
    pub fn build_request(&self, endpoint: &str, extra_params: &Vec<(String, String)>) -> (request:
        UnsentRequest)
        ensures
            request@ == self.request_for(endpoint@, extra_params.deep_view()),
    {
        let mut address = String::from_str(Self::API_BASE_URL);
        address.append(endpoint);
        let mut params: Vec<(String, String)> = Vec::new();
        params.push((String::from_str("appid"), self.api_key.clone()));
        params.push((String::from_str("units"), String::from_str(self.units.value())));
        assert(params.deep_view() =~= fixed_params(self@.api_key, self@.units));
        let mut i: usize = 0;
        while i < extra_params.len()
            invariant
                i <= extra_params.len(),
                params.deep_view() == fixed_params(self@.api_key, self@.units)
                    + extra_params.deep_view().take(i as int),
            decreases extra_params.len() - i,
        {
            let name = extra_params[i].0.clone();
            let value = extra_params[i].1.clone();
            let ghost before = params.deep_view();
            params.push((name, value));
            assert(params.deep_view() =~= before.push(extra_params.deep_view()[i as int]));
            assert(extra_params.deep_view().take(i + 1) =~= extra_params.deep_view().take(
                i as int,
            ).push(extra_params.deep_view()[i as int]));
            i += 1;
        }
        assert(extra_params.deep_view().take(i as int) =~= extra_params.deep_view());
        UnsentRequest { address, params }
    }

    /// Builds the request for the current weather at the given coordinates.
    /// `lat` and `lon` are the decimal degrees as they are to appear in the
    /// query; they are sent as they are, without any check of their range.
    pub fn weather_by_coordinates_request(&self, lat: &str, lon: &str) -> (request: UnsentRequest)
        ensures
            request@ == self.request_for("weather"@, coordinate_params(lat@, lon@)),
    {
        let mut extra: Vec<(String, String)> = Vec::new();
        extra.push((String::from_str("lat"), String::from_str(lat)));
        extra.push((String::from_str("lon"), String::from_str(lon)));
        assert(extra.deep_view() =~= coordinate_params(lat@, lon@));
        self.build_request("weather", &extra)
    }

    /// Builds the request for the current weather in the city with the given
    /// identifier.
    pub fn weather_by_city_id_request(&self, city_id: u32) -> (request: UnsentRequest)
        ensures
            request@ == self.request_for("weather"@, city_id_params(city_id)),
    {
        let mut extra: Vec<(String, String)> = Vec::new();
        extra.push((String::from_str("id"), decimal_text(city_id as u64)));
        assert(extra.deep_view() =~= city_id_params(city_id));
        self.build_request("weather", &extra)
    }

    /// Builds the request for the five-day forecast at the given coordinates.
    /// With `Some(count)` the service is asked for at most `count` samples;
    /// with `None` the parameter is left out and the service decides.
    pub fn forecast5_request(&self, lat: &str, lon: &str, cnt: Option<usize>) -> (request:
        UnsentRequest)
        ensures
            request@ == self.request_for(
                "forecast"@,
                coordinate_params(lat@, lon@) + count_params(cnt),
            ),
    {
        let mut extra: Vec<(String, String)> = Vec::new();
        extra.push((String::from_str("lat"), String::from_str(lat)));
        extra.push((String::from_str("lon"), String::from_str(lon)));
        if let Some(count) = cnt {
            extra.push((String::from_str("cnt"), decimal_text(count as u64)));
        }
        assert(extra.deep_view() =~= coordinate_params(lat@, lon@) + count_params(cnt));
        self.build_request("forecast", &extra)
    }
}

} // verus!
