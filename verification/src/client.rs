//! The cache-aside lookup of a token's metadata, one step at a time.
//!
//! A lookup never touches the network itself. [`MoralisClient::get_token_info`]
//! returns the first [`Step`]; the caller carries out what the step asks for
//! (a cache lookup, a call of the provider, a cache write) and hands the
//! answer to the step's `resume`, which returns the next step, until a step
//! is [`Step::Done`].

use vstd::prelude::*;
use crate::json::{json_elements, read_elements};
use crate::token::{decoded, DecodeError, TokenInfo, TokenInfoView};

verus! {

/// The provider's ERC20 metadata endpoint for the Ethereum chain, up to the
/// address to look up.
pub const METADATA_ENDPOINT: &'static str =
    "https://deep-index.moralis.io/api/v2/erc20/metadata?chain=eth&addresses=";

/// The request header that carries the API key.
pub const API_KEY_HEADER: &'static str = "X-API-Key";

/// The number of seconds for which a cached record is kept.
pub const CACHE_TTL_SECONDS: u32 = 3600;

/// Why a lookup failed.
#[derive(Debug, Clone, PartialEq, Eq)]
pub enum FetchError {
    /// The call of the provider failed; the text is the transport's account
    /// of it.
    Transport(String),
    /// The provider's response could not be read.
    BadResponse(DecodeError),
    /// The provider knows no token at the address.
    NotFound,
    /// The cache holds an entry for the address that could not be read.
    BadCacheEntry(DecodeError),
}

/// The mathematical value of a [`FetchError`].
pub enum FetchErrorView {
    Transport(Seq<char>),
    BadResponse(DecodeError),
    NotFound,
    BadCacheEntry(DecodeError),
}

impl View for FetchError {
    type V = FetchErrorView;

    open spec fn view(&self) -> FetchErrorView {
        match self {
            FetchError::Transport(message) => FetchErrorView::Transport(message@),
            FetchError::BadResponse(e) => FetchErrorView::BadResponse(*e),
            FetchError::NotFound => FetchErrorView::NotFound,
            FetchError::BadCacheEntry(e) => FetchErrorView::BadCacheEntry(*e),
        }
    }
}

/// What is said of a lookup that found no token.
pub const NOT_FOUND: &'static str = "Failed to get token metadata";

/// What is said before the reason why a response could not be read.
pub const BAD_RESPONSE: &'static str = "Failed to read the provider's response: ";

/// What is said before the reason why a cached entry could not be read.
pub const BAD_CACHE_ENTRY: &'static str = "Failed to read the cached entry: ";

impl FetchErrorView {
    /// The description of the error.
    pub open spec fn text(self) -> Seq<char> {
        match self {
            FetchErrorView::Transport(account) => account,
            FetchErrorView::BadResponse(e) => BAD_RESPONSE@ + e.text(),
            FetchErrorView::NotFound => NOT_FOUND@,
            FetchErrorView::BadCacheEntry(e) => BAD_CACHE_ENTRY@ + e.text(),
        }
    }
}

impl FetchError {
    /// Describes the error for a reader.
    pub fn message(&self) -> (r: String)
        ensures
            r@ == self@.text(),
    {
        match self {
            FetchError::Transport(account) => account.clone(),
            FetchError::BadResponse(e) => {
                let reason = e.message();
                String::from_str(BAD_RESPONSE).concat(reason.as_str())
            },
            FetchError::NotFound => String::from_str(NOT_FOUND),
            FetchError::BadCacheEntry(e) => {
                let reason = e.message();
                String::from_str(BAD_CACHE_ENTRY).concat(reason.as_str())
            },
        }
    }
}

/// A pending cache lookup: the caller looks `key` up in the cache.
#[derive(Debug, Clone, PartialEq, Eq)]
pub struct CacheLookup {
    /// The cache key, which is the token's address.
    pub key: String,
    /// The API key for the call that follows a miss.
    pub api_key: String,
}

/// A pending call of the provider: the caller sends a GET request to `url`
/// with the header `header` set to `api_key`.
#[derive(Debug, Clone, PartialEq, Eq)]
pub struct ProviderCall {
    pub url: String,
    pub header: String,
    pub api_key: String,
    /// The token's address.
    pub address: String,
    /// Whether the record that comes back is to be written to the cache.
    pub cached: bool,
}

/// A pending cache write: the caller stores `value` under `key`, to expire
/// after `ttl` seconds.
#[derive(Debug, Clone, PartialEq, Eq)]
pub struct CacheWrite {
    pub key: String,
    pub value: String,
    pub ttl: u32,
    /// The record that the lookup returns once the write was tried.
    pub info: TokenInfo,
}

/// What a lookup waits for, or how it ended.
#[derive(Debug, PartialEq, Eq)]
pub enum Step {
    Lookup(CacheLookup),
    Call(ProviderCall),
    Write(CacheWrite),
    Done(Result<TokenInfo, FetchError>),
}

/// The mathematical value of a [`CacheLookup`].
pub struct CacheLookupView {
    pub key: Seq<char>,
    pub api_key: Seq<char>,
}

/// The mathematical value of a [`ProviderCall`].
pub struct ProviderCallView {
    pub url: Seq<char>,
    pub header: Seq<char>,
    pub api_key: Seq<char>,
    pub address: Seq<char>,
    pub cached: bool,
}

/// The mathematical value of a [`CacheWrite`].
pub struct CacheWriteView {
    pub key: Seq<char>,
    pub value: Seq<char>,
    pub ttl: u32,
    pub info: TokenInfoView,
}

/// The mathematical value of a [`Step`].
pub enum StepView {
    Lookup(CacheLookupView),
    Call(ProviderCallView),
    Write(CacheWriteView),
    Done(Result<TokenInfoView, FetchErrorView>),
}

impl View for CacheLookup {
    type V = CacheLookupView;

    open spec fn view(&self) -> CacheLookupView {
        CacheLookupView { key: self.key@, api_key: self.api_key@ }
    }
}

impl View for ProviderCall {
    type V = ProviderCallView;

    open spec fn view(&self) -> ProviderCallView {
        ProviderCallView {
            url: self.url@,
            header: self.header@,
            api_key: self.api_key@,
            address: self.address@,
            cached: self.cached,
        }
    }
}

impl View for CacheWrite {
    type V = CacheWriteView;

    open spec fn view(&self) -> CacheWriteView {
        CacheWriteView { key: self.key@, value: self.value@, ttl: self.ttl, info: self.info@ }
    }
}

/// The mathematical value of a lookup's result.
pub open spec fn outcome_view(r: Result<TokenInfo, FetchError>) -> Result<
    TokenInfoView,
    FetchErrorView,
> {
    match r {
        Ok(info) => Ok(info@),
        Err(e) => Err(e@),
    }
}

impl View for Step {
    type V = StepView;

    open spec fn view(&self) -> StepView {
        match self {
            Step::Lookup(lookup) => StepView::Lookup(lookup@),
            Step::Call(call) => StepView::Call(call@),
            Step::Write(write) => StepView::Write(write@),
            Step::Done(r) => StepView::Done(outcome_view(*r)),
        }
    }
}

/// The URL at which the provider serves the metadata of the token at
/// `address`.
pub open spec fn metadata_url(address: Seq<char>) -> Seq<char> {
    METADATA_ENDPOINT@ + address
}

/// The call of the provider for the token at `address`.
pub open spec fn provider_call(api_key: Seq<char>, address: Seq<char>, cached: bool) -> ProviderCallView {
    ProviderCallView {
        url: metadata_url(address),
        header: API_KEY_HEADER@,
        api_key,
        address,
        cached,
    }
}

/// The cache lookup for the token at `address`.
pub open spec fn cache_lookup(api_key: Seq<char>, address: Seq<char>) -> CacheLookupView {
    CacheLookupView { key: address, api_key }
}

/// The cache write for the token at `address`: the record `info` goes in as
/// `text`, the text it was decoded from, for [`CACHE_TTL_SECONDS`].
pub open spec fn cache_write(address: Seq<char>, text: Seq<char>, info: TokenInfoView) -> CacheWriteView {
    CacheWriteView { key: address, value: text, ttl: CACHE_TTL_SECONDS, info }
}

/// The first step of a lookup: with a cache, look the address up in it;
/// without one, call the provider.
pub open spec fn first_step(api_key: Seq<char>, cached: bool, address: Seq<char>) -> StepView {
    if cached {
        StepView::Lookup(cache_lookup(api_key, address))
    } else {
        StepView::Call(provider_call(api_key, address, false))
    }
}

/// The step after a cache entry was decoded: the lookup ends, with the
/// record that the entry holds or with the reason why it holds none.
pub open spec fn after_hit(decoding: Result<TokenInfoView, DecodeError>) -> StepView {
    match decoding {
        Ok(info) => StepView::Done(Ok(info)),
        Err(e) => StepView::Done(Err(FetchErrorView::BadCacheEntry(e))),
    }
}

/// The step after the cache answered: a hit ends the lookup, a miss leads to
/// the call of the provider.
pub open spec fn after_lookup(lookup: CacheLookupView, reply: Option<Seq<char>>) -> StepView {
    match reply {
        Some(text) => after_hit(decoded(text)),
        None => StepView::Call(provider_call(lookup.api_key, lookup.key, true)),
    }
}

/// The text of the first metadata object among the parsed elements of a
/// response. A response that is no array, or an empty one, holds none.
pub open spec fn first_of(elements: Option<Seq<Seq<char>>>) -> Result<Seq<char>, FetchErrorView> {
    match elements {
        Some(texts) if texts.len() > 0 => Ok(texts[0]),
        _ => Err(FetchErrorView::NotFound),
    }
}

/// The text of the first metadata object in a response body.
pub open spec fn first_object(body: Seq<u8>) -> Result<Seq<char>, FetchErrorView> {
    match json_elements(body) {
        None => Err(FetchErrorView::BadResponse(DecodeError::Syntax)),
        Some(elements) => first_of(elements),
    }
}

/// The step after the first metadata object of a response was decoded: a
/// record ends the lookup, or with a cache is first written there.
pub open spec fn after_decoding(
    call: ProviderCallView,
    text: Seq<char>,
    decoding: Result<TokenInfoView, DecodeError>,
) -> StepView {
    match decoding {
        Err(e) => StepView::Done(Err(FetchErrorView::BadResponse(e))),
        Ok(info) => if call.cached {
            StepView::Write(cache_write(call.address, text, info))
        } else {
            StepView::Done(Ok(info))
        },
    }
}

/// The step after the provider answered.
pub open spec fn after_call(call: ProviderCallView, reply: Result<Seq<u8>, Seq<char>>) -> StepView {
    match reply {
        Err(message) => StepView::Done(Err(FetchErrorView::Transport(message))),
        Ok(body) => match first_object(body) {
            Err(e) => StepView::Done(Err(e)),
            Ok(text) => after_decoding(call, text, decoded(text)),
        },
    }
}

/// The step after the cache write was tried: the lookup ends with the
/// record, whether or not the cache took it.
pub open spec fn after_write(write: CacheWriteView, stored: bool) -> StepView {
    StepView::Done(Ok(write.info))
}

/// The mathematical value of a provider's answer: the bytes of the response
/// body, or the transport's account of a failure.
pub open spec fn reply_view(reply: Result<Vec<u8>, String>) -> Result<Seq<u8>, Seq<char>> {
    match reply {
        Ok(body) => Ok(body@),
        Err(message) => Err(message@),
    }
}

/// The mathematical value of a decoding's result.
pub open spec fn decoding_view(decoding: Result<TokenInfo, DecodeError>) -> Result<
    TokenInfoView,
    DecodeError,
> {
    match decoding {
        Ok(info) => Ok(info@),
        Err(e) => Err(e),
    }
}

/// A client of the metadata provider: an API key and, where lookups go
/// through a cache, the adapter of that cache.
///
/// The client never calls the adapter; it keeps it for the caller, who
/// performs the cache's part of each lookup.
#[derive(Debug)]
pub struct MoralisClient<C> {
    pub api_key: String,
    pub cache: Option<C>,
}

impl<C> MoralisClient<C> {
    /// Whether lookups go through a cache.
    pub open spec fn cached(&self) -> bool {
        self.cache is Some
    }

    /// A client with the API key `api_key`, and with `cache` as its cache
    /// adapter where there is one.
    pub fn new(api_key: String, cache: Option<C>) -> (client: Self)
        ensures
            client.api_key == api_key,
            client.cache == cache,
    {
        MoralisClient { api_key, cache }
    }

    /// Starts the lookup of the token at `token_address`.
    pub fn get_token_info(&self, token_address: &str) -> (step: Step)
        ensures
            step@ == first_step(self.api_key@, self.cached(), token_address@),
    {
        let address = String::from_str(token_address);
        let api_key = self.api_key.clone();
        if self.cache.is_some() {
            Step::Lookup(CacheLookup { key: address, api_key })
        } else {
            Step::Call(ProviderCall::new(api_key, address, false))
        }
    }
}

impl CacheLookup {
    /// Goes on with what the cache answered: `Some` of the entry under
    /// `key`, or `None` where the cache holds none or could not be asked.
    pub fn resume(self, reply: Option<String>) -> (step: Step)
        ensures
            step@ == after_lookup(self@, reply.deep_view()),
    {
        match reply {
            Some(text) => self.settle(TokenInfo::from_json(text.as_str())),
            None => Step::Call(ProviderCall::new(self.api_key, self.key, true)),
        }
    }

    /// Goes on with a hit, given as what was decoded from the entry.
    pub fn settle(self, decoding: Result<TokenInfo, DecodeError>) -> (step: Step)
        ensures
            step@ == after_hit(decoding_view(decoding)),
    {
        match decoding {
            Ok(info) => Step::Done(Ok(info)),
            Err(e) => Step::Done(Err(FetchError::BadCacheEntry(e))),
        }
    }
}

impl ProviderCall {
    /// The call of the provider for the token at `address`.
    pub fn new(api_key: String, address: String, cached: bool) -> (call: ProviderCall)
        ensures
            call@ == provider_call(api_key@, address@, cached),
    {
        let url = String::from_str(METADATA_ENDPOINT).concat(address.as_str());
        ProviderCall { url, header: String::from_str(API_KEY_HEADER), api_key, address, cached }
    }

    /// Goes on with what the provider answered: the bytes of the response
    /// body, or the transport's account of why there is none.
    pub fn resume(self, reply: Result<Vec<u8>, String>) -> (step: Step)
        ensures
            step@ == after_call(self@, reply_view(reply)),
    {
        let body = match reply {
            Ok(body) => body,
            Err(message) => return Step::Done(Err(FetchError::Transport(message))),
        };
        let elements = match read_elements(body.as_slice()) {
            Ok(elements) => elements,
            Err(_) => return Step::Done(Err(FetchError::BadResponse(DecodeError::Syntax))),
        };
        match first_record(elements) {
            Ok(text) => {
                let decoding = TokenInfo::from_json(text.as_str());
                self.settle(text, decoding)
            },
            Err(e) => Step::Done(Err(e)),
        }
    }

    /// Goes on with the first metadata object of the response, given as the
    /// text `text` and as what was decoded from it.
    pub fn settle(self, text: String, decoding: Result<TokenInfo, DecodeError>) -> (step: Step)
        ensures
            step@ == after_decoding(self@, text@, decoding_view(decoding)),
    {
        match decoding {
            Err(e) => Step::Done(Err(FetchError::BadResponse(e))),
            Ok(info) => if self.cached {
                Step::Write(
                    CacheWrite { key: self.address, value: text, ttl: CACHE_TTL_SECONDS, info },
                )
            } else {
                Step::Done(Ok(info))
            },
        }
    }
}

/// Picks the first metadata object among the parsed elements of a response.
pub fn first_record(elements: Option<Vec<String>>) -> (r: Result<String, FetchError>)
    ensures
        match r {
            Ok(text) => first_of(elements.deep_view()) == Ok::<Seq<char>, FetchErrorView>(text@),
            Err(e) => first_of(elements.deep_view()) == Err::<Seq<char>, FetchErrorView>(e@),
        },
{
    match elements {
        Some(texts) => if texts.len() > 0 {
            Ok(texts[0].clone())
        } else {
            Err(FetchError::NotFound)
        },
        None => Err(FetchError::NotFound),
    }
}

impl CacheWrite {
    /// Goes on with what the cache answered: whether it took the entry.
    pub fn resume(self, stored: bool) -> (step: Step)
        ensures
            step@ == after_write(self@, stored),
    {
        Step::Done(Ok(self.info))
    }
}

} // verus!
