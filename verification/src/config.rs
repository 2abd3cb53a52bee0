//! The configuration of one credential.

pub mod builder;

pub use builder::{BuildError, Builder};

use std::time::Duration;
use vstd::prelude::*;
use vstd::std_specs::cmp::PartialEqSpecImpl;

verus! {

/// The duration of `millis` milliseconds: what `Duration::from_millis` of std
/// returns for it.
pub uninterp spec fn duration_of_millis(millis: u64) -> Duration;

/// `Duration::from_millis` of std: the duration of that many milliseconds, a
/// function of the number alone.
#[verifier::external_body]
pub(crate) fn from_millis(millis: u64) -> (d: Duration)
    ensures
        d == duration_of_millis(millis),
{
    Duration::from_millis(millis)
}

/// `==` of std on two durations: whether they are the same length of time.
#[verifier::external_body]
pub(crate) fn same_duration(a: &Duration, b: &Duration) -> (r: bool)
    ensures
        r == (*a == *b),
{
    a == b
}

/// What a [`Config`] says, but for the HTTP client.
pub struct ConfigView {
    pub token: Seq<char>,
    pub api_url: Seq<char>,
    pub api_version: Seq<char>,
    pub time_between_requests: Duration,
}

/// One credential: the token of an account and how to reach the provider with
/// it. `C` is the HTTP client that the requests of this credential go through.
#[derive(Debug)]
pub struct Config<C> {
    pub token: String,
    pub http_client: C,
    pub api_url: String,
    pub api_version: String,
    /// The least time between the starts of two requests.
    pub time_between_requests: Duration,
}

impl<C> View for Config<C> {
    type V = ConfigView;

    open spec fn view(&self) -> ConfigView {
        ConfigView {
            token: self.token@,
            api_url: self.api_url@,
            api_version: self.api_version@,
            time_between_requests: self.time_between_requests,
        }
    }
}

impl<C> Config<C> {
    /// Whether the credential can be used: its token is not empty.
    pub open spec fn wf(&self) -> bool {
        self.token@.len() > 0
    }

    /// A [`Builder`] that holds the defaults and no token yet.
    pub fn builder(http_client: C) -> (r: Builder<C>)
        ensures
            r@ == Builder::<C>::defaults(),
            r.http_client == http_client,
    {
        Builder::new(http_client)
    }

    /// One configuration for each of `tokens`, in their order, with the
    /// defaults for everything else and a clone of `http_client`.
    pub fn from_tokens(tokens: Vec<String>, http_client: C) -> (r: Result<Vec<Self>, BuildError>) where
        C: Clone,
        ensures
            match r {
                Ok(configs) => {
                    &&& configs@.len() == tokens@.len()
                    &&& forall|i: int| 0 <= i < tokens@.len() ==> (#[trigger] tokens@[i])@.len() > 0
                    &&& forall|i: int|
                        0 <= i < tokens@.len() ==> (#[trigger] configs@[i])@
                            == Builder::<C>::defaults().with_token(tokens@[i]@).built()
                    &&& forall|i: int|
                        0 <= i < tokens@.len() ==> cloned::<C>(
                            http_client,
                            (#[trigger] configs@[i]).http_client,
                        )
                },
                Err(e) => {
                    &&& e@ == "token"@
                    &&& exists|i: int| 0 <= i < tokens@.len() && tokens@[i]@.len() == 0
                },
            },
    {
        let prototype = Builder::new(http_client);
        Config::from_tokens_by_prototype(tokens, &prototype)
    }

    /// One configuration for each of `tokens`, in their order, with everything
    /// else as `prototype` has it and a clone of its HTTP client. Fails if a
    /// token is empty.
    pub fn from_tokens_by_prototype(tokens: Vec<String>, prototype: &Builder<C>) -> (r: Result<
        Vec<Self>,
        BuildError,
    >) where C: Clone
        ensures
            match r {
                Ok(configs) => {
                    &&& configs@.len() == tokens@.len()
                    &&& forall|i: int| 0 <= i < tokens@.len() ==> (#[trigger] tokens@[i])@.len() > 0
                    &&& forall|i: int|
                        0 <= i < tokens@.len() ==> (#[trigger] configs@[i])@
                            == prototype@.with_token(tokens@[i]@).built()
                    &&& forall|i: int|
                        0 <= i < tokens@.len() ==> cloned::<C>(
                            prototype.http_client,
                            (#[trigger] configs@[i]).http_client,
                        )
                },
                Err(e) => {
                    &&& e@ == "token"@
                    &&& exists|i: int| 0 <= i < tokens@.len() && tokens@[i]@.len() == 0
                },
            },
    {
        let mut configs: Vec<Self> = Vec::new();
        let mut i: usize = 0;
        while i < tokens.len()
            invariant
                0 <= i <= tokens@.len(),
                configs@.len() == i,
                forall|j: int| 0 <= j < i ==> (#[trigger] tokens@[j])@.len() > 0,
                forall|j: int|
                    0 <= j < i ==> (#[trigger] configs@[j])@ == prototype@.with_token(
                        tokens@[j]@,
                    ).built(),
                forall|j: int|
                    0 <= j < i ==> cloned::<C>(
                        prototype.http_client,
                        (#[trigger] configs@[j]).http_client,
                    ),
            decreases tokens@.len() - i,
        {
            match prototype.clone().token(tokens[i].as_str()).build() {
                Ok(config) => {
                    configs.push(config);
                },
                Err(e) => {
                    assert(tokens@[i as int]@.len() == 0);
                    return Err(e);
                },
            }
            i += 1;
        }
        Ok(configs)
    }
}

impl<C> PartialEq for Config<C> {
    /// Two configurations are equal if they say the same, whatever their HTTP
    /// clients are.
    fn eq(&self, other: &Self) -> (r: bool) {
        self.token == other.token && self.api_url == other.api_url && self.api_version
            == other.api_version && same_duration(
            &self.time_between_requests,
            &other.time_between_requests,
        )
    }
}

impl<C> PartialEqSpecImpl for Config<C> {
    open spec fn obeys_eq_spec() -> bool {
        true
    }

    open spec fn eq_spec(&self, other: &Self) -> bool {
        self@ == other@
    }
}

} // verus!
