//! The client: its configuration, the addresses it sends to and the limiter
//! that all its calls share.
//!
//! The HTTP connection itself is the caller's: the client says which header
//! and which addresses to use, and starts the dispatcher of each call.

use crate::classify::ErrorClassifier;
use crate::dispatch::{DispatchState, Dispatcher};
use crate::rate_limiter::{LimiterState, RateLimiter};
use crate::retry::{Backoff, RetryConfig};
use vstd::prelude::*;
use vstd::string::StringExecFns;
use vstd::utf8::encode_utf8;

verus! {

/// Configuration of a client.
#[derive(Clone, Debug)]
pub struct ClientConfig {
    /// Access token of the application.
    pub access_token: String,
    /// Identifier of the phone number that sends.
    pub phone_number_id: String,
    /// Identifier of the business account, where one is used.
    pub business_account_id: Option<String>,
    /// Version of the API, as it stands in the address.
    pub version: String,
    /// Largest number of requests per minute.
    pub max_requests_per_minute: u32,
    /// Whether a throttled request is tried again.
    pub retry_after_too_many_requests: bool,
    /// Number of retries after the first attempt.
    pub max_retries: u32,
    /// Delay before the first retry, in milliseconds.
    pub retry_delay_ms: u64,
}

impl Default for ClientConfig {
    fn default() -> (config: ClientConfig)
        ensures
            config.access_token@ == Seq::<char>::empty(),
            config.phone_number_id@ == Seq::<char>::empty(),
            config.business_account_id.is_none(),
            config.version@ == "v22.0"@,
            config.max_requests_per_minute == 250,
            config.retry_after_too_many_requests,
            config.max_retries == 3,
            config.retry_delay_ms == 1000,
    {
        ClientConfig {
            access_token: String::new(),
            phone_number_id: String::new(),
            business_account_id: None,
            version: "v22.0".to_owned(),
            max_requests_per_minute: 250,
            retry_after_too_many_requests: true,
            max_retries: 3,
            retry_delay_ms: 1000,
        }
    }
}

/// The retry settings that a configuration stands for: the delay doubles
/// from one retry to the next, without an upper bound of its own.
pub open spec fn retry_settings(config: ClientConfig) -> RetryConfig {
    RetryConfig {
        max_retries: config.max_retries,
        base_delay_ms: config.retry_delay_ms,
        retry_on_throttle: config.retry_after_too_many_requests,
        backoff: Backoff::Exponential,
        max_delay_ms: u64::MAX,
    }
}

impl ClientConfig {
    /// The retry settings of this configuration.
    pub fn retry_config(&self) -> (retry: RetryConfig)
        ensures
            retry == retry_settings(*self),
    {
        RetryConfig {
            max_retries: self.max_retries,
            base_delay_ms: self.retry_delay_ms,
            retry_on_throttle: self.retry_after_too_many_requests,
            backoff: Backoff::Exponential,
            max_delay_ms: u64::MAX,
        }
    }
}

/// Mathematical model of a client.
pub struct ClientState {
    pub config: ClientConfig,
    /// Value of the authorization header.
    pub authorization: Seq<char>,
    /// Address that the paths of the API are appended to.
    pub base_url: Seq<char>,
    /// The limiter that the calls of the client share.
    pub limiter: LimiterState,
    /// The statuses that pass for temporary failures.
    pub transient: Seq<u16>,
}

/// The value of the authorization header for an access token.
pub open spec fn bearer(access_token: Seq<char>) -> Seq<char> {
    "Bearer "@ + access_token
}

/// Whether a byte may stand in the value of an HTTP header: anything from the
/// space on but the delete character, and the tab.
pub open spec fn is_header_byte(b: u8) -> bool {
    (b >= 32 && b != 127) || b == 9
}

/// Whether a text may be the value of an HTTP header.
pub open spec fn is_header_text(text: Seq<char>) -> bool {
    forall|i: int|
        0 <= i < encode_utf8(text).len() ==> is_header_byte(#[trigger] encode_utf8(text)[i])
}

/// Whether an access token can be sent: its authorization header is one.
pub open spec fn is_sendable(access_token: Seq<char>) -> bool {
    is_header_text(bearer(access_token))
}

/// Calls `reqwest::header::HeaderValue::from_str` and tells whether it
/// accepted the text. It accepts exactly the texts whose UTF-8 bytes are all
/// 32 or more and not 127, or the tab: that is what the contract claims.
#[verifier::external_body]
fn header_accepts(value: &str) -> (accepted: bool)
    ensures
        accepted == is_header_text(value@),
{
    reqwest::header::HeaderValue::from_str(value).is_ok()
}

/// Whether an access token can be sent in the authorization header.
pub fn is_valid_token(access_token: &str) -> (valid: bool)
    ensures
        valid == is_sendable(access_token@),
{
    let value = bearer_value(access_token);
    header_accepts(value.as_str())
}

/// The address of a version of the API.
pub open spec fn base_url_of(version: Seq<char>) -> Seq<char> {
    "https://graph.facebook.com/"@ + version
}

/// A client for the WhatsApp Cloud API.
#[derive(Debug)]
pub struct WhatsAppClient {
    config: ClientConfig,
    authorization: String,
    rate_limiter: RateLimiter,
    classifier: ErrorClassifier,
    base_url: String,
}

impl View for WhatsAppClient {
    type V = ClientState;

    closed spec fn view(&self) -> ClientState {
        ClientState {
            config: self.config,
            authorization: self.authorization@,
            base_url: self.base_url@,
            limiter: self.rate_limiter@,
            transient: self.classifier@,
        }
    }
}

fn bearer_value(access_token: &str) -> (value: String)
    ensures
        value@ == bearer(access_token@),
{
    String::from_str("Bearer ").concat(access_token)
}

impl WhatsAppClient {
    /// Well-formedness: the limiter is well-formed and the authorization
    /// header is one that can be sent.
    pub closed spec fn wf(&self) -> bool {
        &&& self.rate_limiter.wf()
        &&& is_header_text(self.authorization@)
        &&& self.authorization@ == bearer(self.config.access_token@)
    }

    /// A client with the given configuration and a limiter that has admitted
    /// nothing yet. The access token must be one that can be sent.
    pub fn new(config: ClientConfig) -> (client: WhatsAppClient)
        requires
            is_sendable(config.access_token@),
        ensures
            client.wf(),
            client@.config == config,
            client@.authorization == bearer(config.access_token@),
            client@.base_url == base_url_of(config.version@),
            client@.limiter == LimiterState::fresh(config.max_requests_per_minute as nat),
            client@.transient == seq![500u16, 502u16, 503u16, 504u16],
    {
        let authorization = bearer_value(config.access_token.as_str());
        let base_url = String::from_str("https://graph.facebook.com/").concat(
            config.version.as_str(),
        );
        let rate_limiter = RateLimiter::new(config.max_requests_per_minute);
        WhatsAppClient {
            config,
            authorization,
            rate_limiter,
            classifier: ErrorClassifier::new(),
            base_url,
        }
    }

    /// The configuration of the client.
    pub fn config(&self) -> (config: &ClientConfig)
        ensures
            *config == self@.config,
    {
        &self.config
    }

    /// The value of the authorization header.
    pub fn authorization(&self) -> (value: &str)
        ensures
            value@ == self@.authorization,
    {
        self.authorization.as_str()
    }

    /// The address that the paths of the API are appended to.
    pub fn base_url(&self) -> (url: &str)
        ensures
            url@ == self@.base_url,
    {
        self.base_url.as_str()
    }

    /// The classifier of the client.
    pub fn classifier(&self) -> (classifier: &ErrorClassifier)
        ensures
            classifier@ == self@.transient,
    {
        &self.classifier
    }

    /// The limiter that the calls of the client share.
    pub fn rate_limiter(&mut self) -> (limiter: &mut RateLimiter)
        requires
            old(self).wf(),
        ensures
            limiter@ == old(self)@.limiter,
            limiter.wf(),
            final(self)@ == (ClientState { limiter: final(limiter)@, ..old(self)@ }),
            final(self).wf() == final(limiter).wf(),
    {
        &mut self.rate_limiter
    }

    /// Path of the phone number.
    pub fn get_phone_number_url(&self) -> (path: String)
        ensures
            path@ == "/"@ + self@.config.phone_number_id@,
    {
        String::from_str("/").concat(self.config.phone_number_id.as_str())
    }

    /// Path that messages are sent to.
    pub fn get_messages_url(&self) -> (path: String)
        ensures
            path@ == "/"@ + self@.config.phone_number_id@ + "/messages"@,
    {
        String::from_str("/").concat(self.config.phone_number_id.as_str()).concat("/messages")
    }

    /// Path that media are uploaded to.
    pub fn get_media_url(&self) -> (path: String)
        ensures
            path@ == "/"@ + self@.config.phone_number_id@ + "/media"@,
    {
        String::from_str("/").concat(self.config.phone_number_id.as_str()).concat("/media")
    }

    /// Replaces the access token, which must be one that can be sent. The
    /// authorization header follows it; the rest of the configuration and the
    /// accounting of the limiter stay as they are.
    pub fn update_access_token(&mut self, access_token: String)
        requires
            old(self).wf(),
            is_sendable(access_token@),
        ensures
            final(self).wf(),
            final(self)@.config == (ClientConfig { access_token, ..old(self)@.config }),
            final(self)@.authorization == bearer(access_token@),
            final(self)@.base_url == old(self)@.base_url,
            final(self)@.limiter == old(self)@.limiter,
            final(self)@.transient == old(self)@.transient,
    {
        self.authorization = bearer_value(access_token.as_str());
        self.config.access_token = access_token;
    }

    /// Starts the dispatcher of one call at the instant `now`, with the retry
    /// settings of the configuration.
    pub fn begin(&self, max_total_wait_ms: Option<u64>, now: u64) -> (dispatcher: Dispatcher)
        ensures
            dispatcher.wf(),
            dispatcher@ == DispatchState::begin(
                retry_settings(self@.config),
                max_total_wait_ms,
                now,
            ),
    {
        Dispatcher::new(self.config.retry_config(), max_total_wait_ms, now)
    }
}

/// A client for an access token and a phone number, with the default limits
/// and the given version of the API, or `v22.0` where none is given. The
/// access token must be one that can be sent.
pub fn create_client(access_token: &str, phone_number_id: &str, version: Option<&str>) -> (client:
    WhatsAppClient)
    requires
        is_sendable(access_token@),
    ensures
        client.wf(),
        client@.config.access_token@ == access_token@,
        client@.config.phone_number_id@ == phone_number_id@,
        client@.config.business_account_id.is_none(),
        client@.config.version@ == match version {
            Some(v) => v@,
            None => "v22.0"@,
        },
        client@.config.max_requests_per_minute == 250,
        client@.config.retry_after_too_many_requests,
        client@.config.max_retries == 3,
        client@.config.retry_delay_ms == 1000,
        client@.authorization == bearer(access_token@),
        client@.base_url == base_url_of(client@.config.version@),
        client@.limiter == LimiterState::fresh(250),
        client@.transient == seq![500u16, 502u16, 503u16, 504u16],
{
    let version = match version {
        Some(v) => v,
        None => "v22.0",
    };
    let config = ClientConfig {
        access_token: access_token.to_owned(),
        phone_number_id: phone_number_id.to_owned(),
        business_account_id: None,
        version: version.to_owned(),
        max_requests_per_minute: 250,
        retry_after_too_many_requests: true,
        max_retries: 3,
        retry_delay_ms: 1000,
    };
    WhatsAppClient::new(config)
}

} // verus!
