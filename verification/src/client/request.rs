//! The outgoing request: where a method call is sent, and with which query.

use crate::client::worker::Worker;
use crate::config::{Config, ConfigView};
use crate::method::{Method, MethodView};
use crate::text::joined;
use crate::value::{lemma_view_array, members_view, values_view, Json, Member, Value};
use crate::vk_error::{pairs_view, PairsView};
use vstd::prelude::*;
use vstd::string::*;

verus! {

/// The text of the URL that the url crate makes of `input` and `pairs`:
/// `input` parsed as an absolute URL, with each pair added to its query, in
/// order, encoded as form data. `None` where `input` is no absolute URL.
pub uninterp spec fn url_text(input: Seq<char>, pairs: PairsView) -> Option<Seq<char>>;

/// `Url::parse_with_params` of the url crate, and the text of the URL it
/// returns. The text is a function of `input` and `pairs` alone; the call
/// fails, and only then, where the crate cannot parse `input`.
#[verifier::external_body]
fn url_with_params(input: &str, pairs: &Vec<(String, String)>) -> (r: Option<String>)
    ensures
        match r {
            Some(url) => url_text(input@, pairs_view(pairs@)) == Some(url@),
            None => url_text(input@, pairs_view(pairs@)) is None,
        },
{
    url::Url::parse_with_params(input, pairs).ok().map(String::from)
}

/// The query texts of `items`, in order; none if one of them cannot stand in
/// a query.
pub open spec fn query_texts(items: Seq<Json>) -> Option<Seq<Seq<char>>>
    decreases items,
{
    if items.len() == 0 {
        Some(Seq::empty())
    } else {
        match (query_texts(items.drop_last()), query_text(items.last())) {
            (Some(texts), Some(text)) => Some(texts.push(text)),
            _ => None,
        }
    }
}

/// How a parameter's value stands in the query, before it is encoded: a
/// string as it is, a number by its literal, a boolean as `true` or `false`,
/// an array as the texts of its items with commas between them. `null` and
/// objects cannot stand in a query, nor can an array that holds one.
pub open spec fn query_text(j: Json) -> Option<Seq<char>>
    decreases j,
{
    match j {
        Json::Boolean(b) => Some(
            if b {
                "true"@
            } else {
                "false"@
            },
        ),
        Json::Number(literal) => Some(literal),
        Json::String(text) => Some(text),
        Json::Array(items) => match query_texts(items) {
            Some(texts) => Some(joined(texts, seq![','])),
            None => None,
        },
        _ => None,
    }
}

/// Items that start with some that cannot stand in a query cannot stand in
/// one.
pub proof fn lemma_query_texts_prefix(items: Seq<Json>, k: int)
    requires
        0 <= k <= items.len(),
        query_texts(items.take(k)) is None,
    ensures
        query_texts(items) is None,
    decreases items.len() - k,
{
    if k == items.len() {
        assert(items.take(k) =~= items);
    } else {
        assert(items.drop_last().take(k) =~= items.take(k));
        lemma_query_texts_prefix(items.drop_last(), k);
    }
}

/// The query pairs of a method's parameters: every parameter in its place, a
/// repeated key as often as it stands there. None if a value cannot stand in
/// a query.
pub open spec fn param_pairs(params: Seq<Member>) -> Option<PairsView> {
    if forall|i: int| 0 <= i < params.len() ==> query_text((#[trigger] params[i]).value) is Some {
        Some(Seq::new(params.len(), |i: int| (params[i].key, query_text(params[i].value)->0)))
    } else {
        None
    }
}

/// The query of a request: the credential's `access_token` and `v`, then the
/// method's parameters.
pub open spec fn query_pairs(config: ConfigView, method: MethodView) -> Option<PairsView> {
    match param_pairs(method.params) {
        Some(pairs) => Some(
            seq![("access_token"@, config.token), ("v"@, config.api_version)] + pairs,
        ),
        None => None,
    }
}

/// Where a method is called, before the query: the endpoint, `/method/` and
/// the method's name.
pub open spec fn endpoint_text(config: ConfigView, method: MethodView) -> Seq<char> {
    config.api_url + "/method/"@ + method.name
}

/// The URL that a request for `method` with the credential `config` goes to.
pub open spec fn request_text(config: ConfigView, method: MethodView) -> Option<Seq<char>> {
    match query_pairs(config, method) {
        Some(pairs) => url_text(endpoint_text(config, method), pairs),
        None => None,
    }
}

impl Worker {
    /// How `value` stands in a query, before it is encoded.
    pub fn query_value(value: &Value) -> (r: Option<String>)
        ensures
            match r {
                Some(text) => query_text(value@) == Some(text@),
                None => query_text(value@) is None,
            },
        decreases value,
    {
        match value {
            Value::Boolean(b) => {
                if *b {
                    Some(String::from_str("true"))
                } else {
                    Some(String::from_str("false"))
                }
            },
            Value::Number(literal) => Some(literal.clone()),
            Value::String(text) => Some(text.clone()),
            Value::Array(items) => {
                let ghost views = values_view(items@);
                let ghost texts: Seq<Seq<char>> = Seq::empty();
                proof {
                    lemma_view_array(*items);
                    assert(views.take(0) =~= Seq::<Json>::empty());
                }
                let mut out = String::new();
                let mut i: usize = 0;
                while i < items.len()
                    invariant
                        value is Array,
                        value->Array_0 == *items,
                        value@ == Json::Array(views),
                        0 <= i <= items@.len(),
                        views == values_view(items@),
                        query_texts(views.take(i as int)) == Some(texts),
                        texts.len() == i,
                        out@ == joined(texts, seq![',']),
                    decreases items@.len() - i,
                {
                    proof {
                        assert(views.take(i + 1).drop_last() =~= views.take(i as int));
                        assert(views.take(i + 1).last() == views[i as int]);
                    }
                    match Worker::query_value(&items[i]) {
                        Some(text) => {
                            if i > 0 {
                                out.append(",");
                            }
                            out.append(text.as_str());
                            proof {
                                reveal_strlit(",");
                                assert(","@ =~= seq![',']);
                                assert(texts.push(text@).drop_last() =~= texts);
                                assert(out@ =~= joined(texts.push(text@), seq![',']));
                                texts = texts.push(text@);
                            }
                        },
                        None => {
                            proof {
                                lemma_query_texts_prefix(views, i + 1);
                            }
                            return None;
                        },
                    }
                    i += 1;
                }
                proof {
                    assert(views.take(i as int) =~= views);
                }
                Some(out)
            },
            _ => None,
        }
    }

    /// The query of a request for `method` with the credential `config`:
    /// `access_token`, `v`, then the method's parameters in their order. None
    /// if a parameter holds what cannot stand in a query.
    pub fn query<C>(method: &Method, config: &Config<C>) -> (r: Option<Vec<(String, String)>>)
        ensures
            match r {
                Some(pairs) => query_pairs(config@, method@) == Some(pairs_view(pairs@)),
                None => query_pairs(config@, method@) is None,
            },
    {
        let ghost params = method@.params;
        let mut pairs: Vec<(String, String)> = Vec::new();
        pairs.push((String::from_str("access_token"), config.token.clone()));
        pairs.push((String::from_str("v"), config.api_version.clone()));
        let mut i: usize = 0;
        while i < method.params.0.len()
            invariant
                0 <= i <= method.params.0@.len(),
                params == members_view(method.params.0@),
                pairs@.len() == i + 2,
                pairs@[0].0@ == "access_token"@,
                pairs@[0].1@ == config@.token,
                pairs@[1].0@ == "v"@,
                pairs@[1].1@ == config@.api_version,
                forall|j: int|
                    0 <= j < i ==> query_text((#[trigger] params[j]).value) == Some(
                        pairs@[j + 2].1@,
                    ) && pairs@[j + 2].0@ == params[j].key,
            decreases method.params.0@.len() - i,
        {
            match Worker::query_value(&method.params.0[i].1) {
                Some(text) => {
                    pairs.push((method.params.0[i].0.clone(), text));
                },
                None => {
                    assert(query_text(params[i as int].value) is None);
                    return None;
                },
            }
            i += 1;
        }
        proof {
            assert(pairs_view(pairs@) =~= query_pairs(config@, method@)->0);
        }
        Some(pairs)
    }

    /// The URL of the request for `method` with the credential `config`:
    /// `{endpoint}/method/{name}` with the query of [`Worker::query`]. None if
    /// a parameter cannot stand in a query or the endpoint is no URL.
    pub fn prepare_request<C>(method: &Method, config: &Config<C>) -> (r: Option<String>)
        ensures
            match r {
                Some(url) => request_text(config@, method@) == Some(url@),
                None => request_text(config@, method@) is None,
            },
    {
        match Worker::query(method, config) {
            Some(pairs) => {
                let mut input = config.api_url.clone();
                input.append("/method/");
                input.append(method.name.as_str());
                url_with_params(input.as_str(), &pairs)
            },
            None => None,
        }
    }
}

} // verus!
