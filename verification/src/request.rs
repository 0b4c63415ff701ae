//! Requests that have been put together but not sent.

use vstd::prelude::*;
use vstd::string::*;

verus! {

/// What a request holds, as plain mathematical values.
pub struct UnsentRequestView {
    /// The address without its query string.
    pub address: Seq<char>,
    /// The query parameters, each a name and a value, in the order in which
    /// they are sent.
    pub params: Seq<(Seq<char>, Seq<char>)>,
}

/// A `GET` request that is ready to be sent: an address and the query
/// parameters that go with it. Building one performs no I/O, and the same
/// request may be inspected or sent any number of times.
#[derive(Clone, Debug, PartialEq)]
pub struct UnsentRequest {
    /// The address without its query string.
    pub address: String,
    /// The query parameters, in the order in which they are sent.
    pub params: Vec<(String, String)>,
}

impl View for UnsentRequest {
    type V = UnsentRequestView;

    open spec fn view(&self) -> UnsentRequestView {
        UnsentRequestView { address: self.address@, params: self.params.deep_view() }
    }
}

/// The largest size of a request that is made into a URL. A URL keeps its
/// offsets in 32 bits; a request of this size stays far below that, however
/// many bytes its characters take once they are escaped.
pub const MAX_REQUEST_SIZE: usize = 0x100_0000;

/// The size of a list of query parameters: the characters of each name and
/// value, and two more for each parameter.
pub open spec fn params_size(params: Seq<(Seq<char>, Seq<char>)>) -> nat
    decreases params.len(),
{
    if params.len() == 0 {
        0
    } else {
        params_size(params.drop_last()) + params.last().0.len() + params.last().1.len() + 2
    }
}

/// The size of a request: the characters of its address and the size of its
/// parameters.
pub open spec fn request_size(request: UnsentRequestView) -> nat {
    request.address.len() + params_size(request.params)
}

/// The first parameters of a list are no larger than the whole list.
pub proof fn lemma_params_size_grows(params: Seq<(Seq<char>, Seq<char>)>, n: int)
    requires
        0 <= n <= params.len(),
    ensures
        params_size(params.take(n)) <= params_size(params),
    decreases params.len(),
{
    if n == params.len() {
        assert(params.take(n) =~= params);
    } else {
        assert(params.drop_last().take(n) =~= params.take(n));
        lemma_params_size_grows(params.drop_last(), n);
    }
}

/// The absolute URL that results from parsing `address` and appending
/// `params` to its query string in form-urlencoded notation, or `None` where
/// `address` does not parse as an absolute URL.
pub uninterp spec fn url_with_query(
    address: Seq<char>,
    params: Seq<(Seq<char>, Seq<char>)>,
) -> Option<Seq<char>>;

/// Calls `reqwest::Url::parse_with_params`, which parses the address and then
/// appends each pair to the query string of the parsed URL. The contract only
/// names the outcome: it is a function of the address and the pairs alone, and
/// a parse failure comes back as `None`. The size is bounded because the
/// outside function gives up on a URL whose offsets do not fit in 32 bits.
#[verifier::external_body]
fn parse_with_params(address: &str, params: &Vec<(String, String)>) -> (url: Option<String>)
    requires
        address@.len() + params_size(params.deep_view()) <= MAX_REQUEST_SIZE,
    ensures
        url is Some <==> url_with_query(address@, params.deep_view()) is Some,
        url matches Some(text) ==> url_with_query(address@, params.deep_view()) == Some(text@),
{
    reqwest::Url::parse_with_params(address, params).ok().map(String::from)
}

impl UnsentRequest {
    /// Tells whether this request is small enough to be made into a URL.
    pub fn fits(&self) -> (fits: bool)
        ensures
            fits == (request_size(self@) <= MAX_REQUEST_SIZE),
    {
        let ghost params = self.params.deep_view();
        let mut size: usize = self.address.as_str().unicode_len();
        if size > MAX_REQUEST_SIZE {
            return false;
        }
        let mut i: usize = 0;
        while i < self.params.len()
            invariant
                i <= self.params.len(),
                params == self.params.deep_view(),
                size == self.address@.len() + params_size(params.take(i as int)),
                size <= MAX_REQUEST_SIZE,
            decreases self.params.len() - i,
        {
            let name_size: usize = self.params[i].0.as_str().unicode_len();
            let value_size: usize = self.params[i].1.as_str().unicode_len();
            proof {
                assert(params.take(i + 1).drop_last() =~= params.take(i as int));
                assert(params.take(i + 1).last() == params[i as int]);
                lemma_params_size_grows(params, i + 1);
            }
            if name_size > MAX_REQUEST_SIZE || value_size > MAX_REQUEST_SIZE {
                return false;
            }
            size = size + name_size + value_size + 2;
            if size > MAX_REQUEST_SIZE {
                return false;
            }
            i += 1;
        }
        assert(params.take(i as int) =~= params);
        true
    }

    /// The full URL of this request, query string included. There is none
    /// where the address cannot be parsed as an absolute URL, nor where the
    /// request is larger than [`MAX_REQUEST_SIZE`].
    pub fn url(&self) -> (url: Option<String>)
        ensures
            url is Some <==> request_size(self@) <= MAX_REQUEST_SIZE && url_with_query(
                self@.address,
                self@.params,
            ) is Some,
            url matches Some(text) ==> url_with_query(self@.address, self@.params) == Some(
                text@,
            ),
    {
        if self.fits() {
            parse_with_params(self.address.as_str(), &self.params)
        } else {
            None
        }
    }
}

} // verus!
