//! Step-by-step construction of a [`Config`].

use crate::config::{duration_of_millis, from_millis, same_duration, Config, ConfigView};
use std::time::Duration;
use vstd::prelude::*;
use vstd::std_specs::cmp::PartialEqSpecImpl;
use vstd::string::*;

verus! {

/// Why a [`Config`] could not be built.
#[derive(Debug, PartialEq, Eq)]
pub enum BuildError {
    /// The named parameter was not given, or was given empty.
    MissingParameter(String),
}

impl View for BuildError {
    type V = Seq<char>;

    /// The name of the parameter that is missing.
    open spec fn view(&self) -> Seq<char> {
        match self {
            BuildError::MissingParameter(name) => name@,
        }
    }
}

/// What a [`Builder`] says, but for the HTTP client.
pub struct BuilderView {
    pub token: Option<Seq<char>>,
    pub api_url: Seq<char>,
    pub api_version: Seq<char>,
    pub time_between_requests: Duration,
}

impl BuilderView {
    /// The same with `token` as the token.
    pub open spec fn with_token(self, token: Seq<char>) -> BuilderView {
        BuilderView { token: Some(token), ..self }
    }

    /// Whether a configuration can be built: there is a token, and it is not
    /// empty.
    pub open spec fn complete(self) -> bool {
        self.token matches Some(token) && token.len() > 0
    }

    /// The configuration that is built from a complete builder.
    pub open spec fn built(self) -> ConfigView {
        ConfigView {
            token: self.token->0,
            api_url: self.api_url,
            api_version: self.api_version,
            time_between_requests: self.time_between_requests,
        }
    }
}

/// Collects the parts of a [`Config`].
#[derive(Debug)]
pub struct Builder<C> {
    pub token: Option<String>,
    pub http_client: C,
    pub api_url: String,
    pub api_version: String,
    pub time_between_requests: Duration,
}

impl<C> View for Builder<C> {
    type V = BuilderView;

    open spec fn view(&self) -> BuilderView {
        BuilderView {
            token: match self.token {
                Some(token) => Some(token@),
                None => None,
            },
            api_url: self.api_url@,
            api_version: self.api_version@,
            time_between_requests: self.time_between_requests,
        }
    }
}

impl<C> Builder<C> {
    /// What a new builder holds: no token, the provider's own endpoint, API
    /// version 5.103 and an interval of 334 milliseconds, which keeps a
    /// credential under three requests a second.
    pub open spec fn defaults() -> BuilderView {
        BuilderView {
            token: None,
            api_url: "https://api.vk.com/"@,
            api_version: "5.103"@,
            time_between_requests: duration_of_millis(334),
        }
    }

    /// A builder with the defaults, for requests through `http_client`.
    pub fn new(http_client: C) -> (r: Self)
        ensures
            r@ == Self::defaults(),
            r.http_client == http_client,
    {
        Builder {
            token: None,
            http_client,
            api_url: String::from_str("https://api.vk.com/"),
            api_version: String::from_str("5.103"),
            time_between_requests: from_millis(334),
        }
    }

    /// Sets the token. A configuration cannot be built without one.
    pub fn token(self, token: &str) -> (r: Self)
        ensures
            r@ == self@.with_token(token@),
            r.http_client == self.http_client,
    {
        let mut this = self;
        this.token = Some(String::from_str(token));
        this
    }

    /// Sets the HTTP client.
    pub fn http_client(self, http_client: C) -> (r: Self)
        ensures
            r@ == self@,
            r.http_client == http_client,
    {
        let mut this = self;
        this.http_client = http_client;
        this
    }

    /// Sets the endpoint that requests go to.
    pub fn api_url(self, api_url: &str) -> (r: Self)
        ensures
            r@ == (BuilderView { api_url: api_url@, ..self@ }),
            r.http_client == self.http_client,
    {
        let mut this = self;
        this.api_url = String::from_str(api_url);
        this
    }

    /// Sets the version of the API.
    pub fn api_version(self, api_version: &str) -> (r: Self)
        ensures
            r@ == (BuilderView { api_version: api_version@, ..self@ }),
            r.http_client == self.http_client,
    {
        let mut this = self;
        this.api_version = String::from_str(api_version);
        this
    }

    /// Sets the least time between the starts of two requests.
    pub fn time_between_requests(self, time_between_requests: Duration) -> (r: Self)
        ensures
            r@ == (BuilderView { time_between_requests, ..self@ }),
            r.http_client == self.http_client,
    {
        let mut this = self;
        this.time_between_requests = time_between_requests;
        this
    }

    /// Builds the configuration. Fails with the missing parameter `token` if
    /// no token was given or the token is empty.
    pub fn build(self) -> (r: Result<Config<C>, BuildError>)
        ensures
            match r {
                Ok(config) => {
                    &&& self@.complete()
                    &&& config@ == self@.built()
                    &&& config.http_client == self.http_client
                    &&& config.wf()
                },
                Err(e) => !self@.complete() && e@ == "token"@,
            },
    {
        match self.token {
            Some(token) => {
                if token.as_str().unicode_len() == 0 {
                    return Err(BuildError::MissingParameter(String::from_str("token")));
                }
                Ok(
                    Config {
                        token,
                        http_client: self.http_client,
                        api_url: self.api_url,
                        api_version: self.api_version,
                        time_between_requests: self.time_between_requests,
                    },
                )
            },
            None => Err(BuildError::MissingParameter(String::from_str("token"))),
        }
    }
}

impl<C: Clone> Clone for Builder<C> {
    /// A builder that says the same, with a clone of the HTTP client.
    fn clone(&self) -> (r: Self)
        ensures
            r@ == self@,
            cloned::<C>(self.http_client, r.http_client),
    {
        Builder {
            token: match &self.token {
                Some(token) => Some(token.clone()),
                None => None,
            },
            http_client: self.http_client.clone(),
            api_url: self.api_url.clone(),
            api_version: self.api_version.clone(),
            time_between_requests: self.time_between_requests,
        }
    }
}

impl<C> PartialEq for Builder<C> {
    /// Two builders are equal if they say the same, whatever their HTTP
    /// clients are.
    fn eq(&self, other: &Self) -> (r: bool) {
        let same_token = match (&self.token, &other.token) {
            (Some(a), Some(b)) => *a == *b,
            (None, None) => true,
            _ => false,
        };
        same_token && self.api_url == other.api_url && self.api_version == other.api_version
            && same_duration(&self.time_between_requests, &other.time_between_requests)
    }
}

impl<C> PartialEqSpecImpl for Builder<C> {
    open spec fn obeys_eq_spec() -> bool {
        true
    }

    open spec fn eq_spec(&self, other: &Self) -> bool {
        self@ == other@
    }
}

} // verus!
