//! What every call shares: where the API lives, how to authenticate, and
//! the rate-limit quota that the API last advertised.

use vstd::prelude::*;
use vstd::string::*;

verus! {

/// The quota assumed when a response does not advertise one.
pub const DEFAULT_RATELIMIT: u64 = 1000;

/// An API token, with the scheme that precedes it in the header, if any.
#[derive(Debug, Clone)]
pub struct ApiKey {
    pub prefix: Option<String>,
    pub key: String,
}

/// The settings of a client and its rate-limit bookkeeping.
#[derive(Debug, Clone)]
pub struct Configuration {
    /// Scheme and host that every resource path is appended to.
    pub base_path: String,
    pub user_agent: Option<String>,
    pub api_key: Option<ApiKey>,
    /// Requests left in the current window, as last advertised.
    pub rate_limit_remaining: u64,
    /// When the current window ends, as last advertised.
    pub rate_limit_reset: u64,
}

/// An [`ApiKey`] as text.
pub struct ApiKeyView {
    pub prefix: Option<Seq<char>>,
    pub key: Seq<char>,
}

/// A [`Configuration`] as text and numbers.
pub struct ConfigurationView {
    pub base_path: Seq<char>,
    pub user_agent: Option<Seq<char>>,
    pub api_key: Option<ApiKeyView>,
    pub rate_limit_remaining: u64,
    pub rate_limit_reset: u64,
}

impl View for ApiKey {
    type V = ApiKeyView;

    open spec fn view(&self) -> ApiKeyView {
        ApiKeyView { prefix: self.prefix.deep_view(), key: self.key@ }
    }
}

impl View for Configuration {
    type V = ConfigurationView;

    open spec fn view(&self) -> ConfigurationView {
        ConfigurationView {
            base_path: self.base_path@,
            user_agent: self.user_agent.deep_view(),
            api_key: match self.api_key {
                Some(key) => Some(key@),
                None => None,
            },
            rate_limit_remaining: self.rate_limit_remaining,
            rate_limit_reset: self.rate_limit_reset,
        }
    }
}

impl ApiKeyView {
    /// The value of the authentication header: the prefix, a space and the
    /// key, or the bare key where there is no prefix.
    pub open spec fn header_value(self) -> Seq<char> {
        match self.prefix {
            Some(prefix) => prefix + seq![' '] + self.key,
            None => self.key,
        }
    }
}

impl ApiKey {
    /// The value to send in the authentication header.
    pub fn header_value(&self) -> (value: String)
        ensures
            value@ == self@.header_value(),
    {
        match &self.prefix {
            Some(prefix) => {
                let mut value = prefix.clone();
                value.push(' ');
                value.append(self.key.as_str());
                value
            },
            None => self.key.clone(),
        }
    }
}

impl Configuration {
    /// The settings for the public API, without credentials, and a full
    /// quota.
    pub fn new() -> (configuration: Configuration)
        ensures
            configuration@ == (ConfigurationView {
                base_path: "https://api.fastly.com"@,
                user_agent: Some("fastly-rust/0.1.0/rust"@),
                api_key: None,
                rate_limit_remaining: DEFAULT_RATELIMIT,
                rate_limit_reset: 0,
            }),
    {
        Configuration {
            base_path: "https://api.fastly.com".to_owned(),
            user_agent: Some("fastly-rust/0.1.0/rust".to_owned()),
            api_key: None,
            rate_limit_remaining: DEFAULT_RATELIMIT,
            rate_limit_reset: 0,
        }
    }
}

impl Default for Configuration {
    fn default() -> (configuration: Configuration)
        ensures
            configuration@ == (ConfigurationView {
                base_path: "https://api.fastly.com"@,
                user_agent: Some("fastly-rust/0.1.0/rust"@),
                api_key: None,
                rate_limit_remaining: DEFAULT_RATELIMIT,
                rate_limit_reset: 0,
            }),
    {
        Configuration::new()
    }
}

} // verus!
