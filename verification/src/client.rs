//! The client: the address of every query, and the reading of its reply.

use vstd::prelude::*;
use vstd::string::*;
use crate::error::{ApiError, Error, Failure};
use crate::json::{document, Json, JsonTree};
use crate::text::{decimal, percent_encode, percent_encoded, push_decimal};
use crate::wire::Wire;

verus! {

/// A client type to connect to the StoryBoard API
#[derive(Clone, Debug, PartialEq, Eq)]
pub struct Client {
    /// The uri of the API.
    uri: String,
    /// The address of the proxy that HTTPS requests go through; `None`
    /// where they go out directly.
    proxy: Option<String>,
}

/// What the service wraps every reply in: the payload that was asked for,
/// or a fault.
#[derive(Clone, Debug, PartialEq, Eq)]
pub enum ApiResult<T, E> {
    Success(T),
    Fault(E),
}

impl<T: DeepView, E: DeepView> DeepView for ApiResult<T, E> {
    type V = ApiResult<T::V, E::V>;

    open spec fn deep_view(&self) -> ApiResult<T::V, E::V> {
        match self {
            ApiResult::Success(payload) => ApiResult::Success(payload.deep_view()),
            ApiResult::Fault(fault) => ApiResult::Fault(fault.deep_view()),
        }
    }
}

impl<T: Wire, E: Wire> ApiResult<T, E> {
    /// The envelope that a document denotes: the payload where the document
    /// has its shape, else the fault where it has that shape, else nothing.
    pub open spec fn decoded(tree: JsonTree) -> Option<ApiResult<T::V, E::V>> {
        match T::decoded(tree) {
            Some(payload) => Some(ApiResult::Success(payload)),
            None => match E::decoded(tree) {
                Some(fault) => Some(ApiResult::Fault(fault)),
                None => None,
            },
        }
    }

    /// Reads an envelope: first as the payload, then as the fault.
    pub fn decode(json: &Json) -> (r: Option<ApiResult<T, E>>)
        ensures
            r.deep_view() == Self::decoded(json@),
    {
        match T::decode(json) {
            Some(payload) => Some(ApiResult::Success(payload)),
            None => match E::decode(json) {
                Some(fault) => Some(ApiResult::Fault(fault)),
                None => None,
            },
        }
    }
}

/// The mathematical value of what a query returns.
pub open spec fn outcome<T: DeepView>(r: Result<T, Error>) -> Result<T::V, Error> {
    match r {
        Ok(value) => Ok(value.deep_view()),
        Err(e) => Err(e),
    }
}

/// What a query for a `T` returns on a reply that is the given document:
/// the payload; the one error for every fault, whose detail is dropped; and
/// a failure to read for a document that is neither.
pub open spec fn reply_of<T: Wire>(tree: JsonTree) -> Result<T::V, Error> {
    match ApiResult::<T, ApiError>::decoded(tree) {
        Some(ApiResult::Success(payload)) => Ok(payload),
        Some(ApiResult::Fault(_)) => Err(Error::OtherError),
        None => Err(Error::ReqwestErr(Failure::Shape)),
    }
}

/// What a query for a `T` returns on a reply whose text denotes the given
/// document, or none.
pub open spec fn fetched<T: Wire>(reply: Option<JsonTree>) -> Result<T::V, Error> {
    match reply {
        Some(tree) => reply_of::<T>(tree),
        None => Err(Error::ReqwestErr(Failure::Syntax)),
    }
}

/// The one record of a listing that must hold exactly one.
pub open spec fn only<V>(found: Result<Seq<V>, Error>) -> Result<V, Error> {
    match found {
        Ok(records) => if records.len() == 1 {
            Ok(records[0])
        } else {
            Err(Error::OtherError)
        },
        Err(e) => Err(e),
    }
}

/// The proxy address that the environment names: the value of the
/// lower-case variable where it is set, else that of the upper-case one.
pub open spec fn proxy_choice(lower: Option<Seq<char>>, upper: Option<Seq<char>>) -> Option<
    Seq<char>,
> {
    match lower {
        Some(address) => Some(address),
        None => upper,
    }
}

/// Whether a text is an address that a proxy for HTTPS can be made of.
pub uninterp spec fn proxy_address_ok(address: Seq<char>) -> bool;

/// `reqwest::Proxy::https`, asked only whether it succeeds: it does exactly
/// on the texts that a proxy can be made of. The text is taken as a URL,
/// and once more with `http://` in front where it has no scheme.
#[verifier::external_body]
fn proxy_accepts(address: &str) -> (ok: bool)
    ensures
        ok == proxy_address_ok(address@),
{
    reqwest::Proxy::https(address).is_ok()
}

/// The proxy that the environment asks for: the chosen address where a
/// proxy can be made of it, a failure where none can, and the other error
/// where neither variable is set. The upper-case variable is not tried in
/// place of a lower-case one that is set to an address of no use.
pub open spec fn proxy_of(lower: Option<Seq<char>>, upper: Option<Seq<char>>) -> Result<
    Seq<char>,
    Error,
> {
    match proxy_choice(lower, upper) {
        Some(address) => if proxy_address_ok(address) {
            Ok(address)
        } else {
            Err(Error::ReqwestErr(Failure::Address))
        },
        None => Err(Error::OtherError),
    }
}

/// The way that requests take: through the proxy where the environment
/// asks for one that can be used, else directly.
pub open spec fn route_of(proxy: Result<Seq<char>, Error>) -> Option<Seq<char>> {
    match proxy {
        Ok(address) => Some(address),
        Err(_) => None,
    }
}

/// Picks the proxy address out of the values of the variables
/// `https_proxy` and `HTTPS_PROXY`, each `None` where it is not set.
pub fn choose_proxy(lower: Option<String>, upper: Option<String>) -> (r: Option<String>)
    ensures
        r.deep_view() == proxy_choice(lower.deep_view(), upper.deep_view()),
{
    match lower {
        Some(address) => Some(address),
        None => upper,
    }
}

/// Takes an address for the proxy where it was found to be one, and
/// refuses it where it was not.
pub fn accept_proxy(address: String, accepted: bool) -> (r: Result<String, Error>)
    ensures
        accepted ==> r == Ok::<String, Error>(address),
        !accepted ==> r == Err::<String, Error>(Error::ReqwestErr(Failure::Address)),
{
    if accepted {
        Ok(address)
    } else {
        Err(Error::ReqwestErr(Failure::Address))
    }
}

/// Finds the HTTPS proxy that the environment asks for, from the values of
/// the variables `https_proxy` and `HTTPS_PROXY`, each `None` where it is
/// not set: the address of the first that is set, where a proxy can be made
/// of it.
pub fn get_proxy(lower: Option<String>, upper: Option<String>) -> (r: Result<String, Error>)
    ensures
        outcome(r) == proxy_of(lower.deep_view(), upper.deep_view()),
{
    match choose_proxy(lower, upper) {
        Some(address) => {
            let accepted = proxy_accepts(address.as_str());
            accept_proxy(address, accepted)
        },
        None => Err(Error::OtherError),
    }
}

/// Reads the reply to a query for a `T` from its document.
pub fn read_reply<T: Wire>(json: &Json) -> (r: Result<T, Error>)
    ensures
        outcome(r) == reply_of::<T>(json@),
{
    match ApiResult::<T, ApiError>::decode(json) {
        Some(ApiResult::Success(v)) => Ok(v),
        Some(ApiResult::Fault(_)) => Err(Error::OtherError),
        None => Err(Error::ReqwestErr(Failure::Shape)),
    }
}

/// Takes the one record out of a listing that must hold exactly one.
pub fn only_one<T: DeepView>(found: Vec<T>) -> (r: Result<T, Error>)
    ensures
        outcome(r) == only(Ok::<Seq<T::V>, Error>(found.deep_view())),
{
    let mut found = found;
    if found.len() == 1 {
        match found.pop() {
            Some(record) => Ok(record),
            None => Err(Error::OtherError),
        }
    } else {
        Err(Error::OtherError)
    }
}

impl View for Client {
    type V = Seq<char>;

    /// The address of the service.
    closed spec fn view(&self) -> Seq<char> {
        self.uri@
    }
}

impl Client {
    /// The address of the proxy that HTTPS requests go through, `None`
    /// where they go out directly.
    pub closed spec fn route(&self) -> Option<Seq<char>> {
        self.proxy.deep_view()
    }

    /// Creates a new client for the StoryBoard API.
    ///
    /// Receives the url of the API endpoint to perform the operations, and
    /// the values of the variables `https_proxy` and `HTTPS_PROXY`, each
    /// `None` where it is not set. Requests go through the proxy that
    /// [`get_proxy`] finds, and directly where it finds none, be it that
    /// neither variable is set or that the address is of no use.
    pub fn new(url: &str, lower: Option<String>, upper: Option<String>) -> (client: Client)
        ensures
            client@ == url@,
            client.route() == route_of(proxy_of(lower.deep_view(), upper.deep_view())),
    {
        let proxy = match get_proxy(lower, upper) {
            Ok(address) => Some(address),
            Err(_) => None,
        };
        Client { uri: url.to_owned(), proxy }
    }

    /// The address of the proxy that HTTPS requests go through, `None`
    /// where they go out directly.
    pub fn proxy(&self) -> (proxy: Option<&str>)
        ensures
            match proxy {
                Some(address) => self.route() == Some(address@),
                None => self.route() is None,
            },
    {
        match &self.proxy {
            Some(address) => Some(address.as_str()),
            None => None,
        }
    }

    /// The url of the API endpoint.
    pub fn uri(&self) -> (uri: &str)
        ensures
            uri@ == self@,
    {
        self.uri.as_str()
    }

    /// The address of a query that takes a text.
    pub(crate) fn address_of_text(&self, path: &str, term: &str) -> (url: String)
        ensures
            url@ == self@ + path@ + percent_encoded(term@),
    {
        let mut url = self.uri.clone();
        url.append(path);
        let query = percent_encode(term);
        url.append(query.as_str());
        url
    }

    /// The address of a query that takes an ID.
    pub(crate) fn address_of_id(&self, path: &str, id: i32) -> (url: String)
        ensures
            url@ == self@ + path@ + decimal(id as int),
    {
        let mut url = self.uri.clone();
        url.append(path);
        push_decimal(&mut url, id);
        url
    }

    /// The address of a query that takes nothing.
    pub(crate) fn address_of(&self, path: &str) -> (url: String)
        ensures
            url@ == self@ + path@,
    {
        let mut url = self.uri.clone();
        url.append(path);
        url
    }

    /// Reads the reply to a query for a `T`.
    pub fn fetch_url<T: Wire>(&self, reply: &str) -> (r: Result<T, Error>)
        ensures
            outcome(r) == fetched::<T>(document(reply@)),
    {
        match Json::parse(reply) {
            Some(json) => read_reply::<T>(&json),
            None => Err(Error::ReqwestErr(Failure::Syntax)),
        }
    }
}

/// A reply that is a fault and not the payload gives the one error that
/// stands for every fault, never a value.
pub proof fn lemma_fault_is_an_error<T: Wire>(tree: JsonTree)
    requires
        ApiError::decoded(tree) is Some,
        T::decoded(tree) is None,
    ensures
        fetched::<T>(Some(tree)) == Err::<T::V, Error>(Error::OtherError),
{
}

/// A fault is an object, and so never a listing: on a reply that is a
/// fault, every query for a listing gives the one error for faults.
pub proof fn lemma_fault_is_no_listing<T: Wire>(tree: JsonTree)
    requires
        ApiError::decoded(tree) is Some,
    ensures
        fetched::<Vec<T>>(Some(tree)) == Err::<Seq<T::V>, Error>(Error::OtherError),
        only(fetched::<Vec<T>>(Some(tree))) == Err::<T::V, Error>(Error::OtherError),
{
}

/// A query gives a value only where the reply denotes exactly that value.
pub proof fn lemma_value_is_the_payload<T: Wire>(reply: Option<JsonTree>, value: T::V)
    requires
        fetched::<T>(reply) == Ok::<T::V, Error>(value),
    ensures
        reply matches Some(tree) && T::decoded(tree) == Some(value),
{
}

/// The query for one record gives it exactly where the listing holds one
/// record, and the error for faults where it holds none or several.
pub proof fn lemma_only_one<V>(records: Seq<V>)
    ensures
        records.len() == 1 ==> only(Ok::<Seq<V>, Error>(records)) == Ok::<V, Error>(records[0]),
        records.len() != 1 ==> only(Ok::<Seq<V>, Error>(records)) == Err::<V, Error>(
            Error::OtherError,
        ),
{
}

/// Without either variable the client goes out directly, and with an
/// address of no use in the first variable that is set it does so too,
/// whatever the other holds.
pub proof fn lemma_direct_without_a_usable_proxy(
    lower: Option<Seq<char>>,
    upper: Option<Seq<char>>,
)
    ensures
        lower is None && upper is None ==> proxy_of(lower, upper) == Err::<Seq<char>, Error>(
            Error::OtherError,
        ),
        lower matches Some(address) && !proxy_address_ok(address) ==> proxy_of(lower, upper)
            == Err::<Seq<char>, Error>(Error::ReqwestErr(Failure::Address)),
        proxy_of(lower, upper) is Err ==> route_of(proxy_of(lower, upper)) is None,
        proxy_of(lower, upper) matches Ok(address) ==> proxy_address_ok(address) && proxy_choice(
            lower,
            upper,
        ) == Some(address),
{
}

} // verus!
