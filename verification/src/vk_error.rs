//! The error record of the VK API and the envelope that carries it.

use crate::text::{decimal_u16, parse_u16};
use crate::value::{lemma_view_array, values_view, Json, Value};
use vstd::prelude::*;

verus! {

/// A list of key/value pairs as a mathematical value.
pub type PairsView = Seq<(Seq<char>, Seq<char>)>;

/// The views of `pairs`, in order.
pub open spec fn pairs_view(pairs: Seq<(String, String)>) -> PairsView {
    Seq::new(pairs.len(), |i: int| (pairs[i].0@, pairs[i].1@))
}

/// An API error record as a mathematical value.
pub struct VkErrorView {
    pub error_code: u16,
    pub error_msg: Seq<char>,
    pub request_params: Option<PairsView>,
}

/// Represents any valid VK error: the record that the provider sent, word for
/// word.
#[derive(Debug, PartialEq, Eq)]
pub struct VkError {
    pub error_code: u16,
    pub error_msg: String,
    /// The parameters of the request that failed, in the order the provider
    /// listed them; `None` where it listed none.
    pub request_params: Option<Vec<(String, String)>>,
}

impl View for VkError {
    type V = VkErrorView;

    open spec fn view(&self) -> VkErrorView {
        VkErrorView {
            error_code: self.error_code,
            error_msg: self.error_msg@,
            request_params: match self.request_params {
                Some(pairs) => Some(pairs_view(pairs@)),
                None => None,
            },
        }
    }
}

/// What the provider's answer holds: a value, or the error record in its place.
#[derive(Debug, PartialEq, Eq)]
pub enum VkResult<T> {
    Response(T),
    Error(VkError),
}

/// The request parameters that a list of pairs stands for: none where the list
/// is empty, else the list as it is.
pub open spec fn request_params_of(pairs: PairsView) -> Option<PairsView> {
    if pairs.len() == 0 {
        None
    } else {
        Some(pairs)
    }
}

/// The pair that the JSON object `{"key": .., "value": ..}` stands for. Both
/// have to be strings.
pub open spec fn pair_of(j: Json) -> Option<(Seq<char>, Seq<char>)> {
    match (j.member("key"@), j.member("value"@)) {
        (Some(Json::String(k)), Some(Json::String(v))) => Some((k, v)),
        _ => None,
    }
}

/// The pairs that a JSON array of such objects stands for.
pub open spec fn pairs_of(items: Seq<Json>) -> Option<PairsView> {
    if forall|i: int| 0 <= i < items.len() ==> (#[trigger] pair_of(items[i])) is Some {
        Some(Seq::new(items.len(), |i: int| pair_of(items[i])->0))
    } else {
        None
    }
}

/// The request parameters that the member `request_params` stands for. A
/// missing member stands for no parameters; one that is no array of pairs
/// stands for nothing.
pub open spec fn params_of(field: Option<Json>) -> Option<Option<PairsView>> {
    match field {
        None => Some(None),
        Some(Json::Array(items)) => match pairs_of(items) {
            Some(pairs) => Some(request_params_of(pairs)),
            None => None,
        },
        Some(_) => None,
    }
}

/// The error record that a JSON value stands for: an object with a numeral
/// `error_code` that fits in 16 bits, a string `error_msg` and, if any, an
/// array `request_params` of key/value objects. Other members are passed over.
pub open spec fn error_of(j: Json) -> Option<VkErrorView> {
    match (
        j.member("error_code"@),
        j.member("error_msg"@),
        params_of(j.member("request_params"@)),
    ) {
        (Some(Json::Number(code)), Some(Json::String(msg)), Some(params)) => match decimal_u16(
            code,
        ) {
            Some(c) => Some(VkErrorView { error_code: c, error_msg: msg, request_params: params }),
            None => None,
        },
        _ => None,
    }
}

/// The error records that a JSON array stands for, if each item is one.
pub open spec fn errors_of(items: Seq<Json>) -> Option<Seq<VkErrorView>> {
    if forall|i: int| 0 <= i < items.len() ==> (#[trigger] error_of(items[i])) is Some {
        Some(Seq::new(items.len(), |i: int| error_of(items[i])->0))
    } else {
        None
    }
}

/// The views of `errors`, in order.
pub open spec fn errors_view(errors: Seq<VkError>) -> Seq<VkErrorView> {
    Seq::new(errors.len(), |i: int| errors[i]@)
}

/// Turns the pairs of a `request_params` array into the field of the error
/// record: `None` for an empty list, else the pairs in their order.
pub fn params_from_pairs(pairs: Vec<(String, String)>) -> (r: Option<Vec<(String, String)>>)
    ensures
        match r {
            Some(kept) => request_params_of(pairs_view(pairs@)) == Some(pairs_view(kept@)),
            None => request_params_of(pairs_view(pairs@)) is None,
        },
{
    if pairs.len() == 0 {
        None
    } else {
        Some(pairs)
    }
}

/// Reads one `{"key": .., "value": ..}` object.
fn pair_from(value: &Value) -> (r: Option<(String, String)>)
    ensures
        match r {
            Some(p) => pair_of(value@) == Some((p.0@, p.1@)),
            None => pair_of(value@) is None,
        },
{
    let key = match value.get("key") {
        Some(Value::String(k)) => k.clone(),
        _ => {
            return None;
        },
    };
    let val = match value.get("value") {
        Some(Value::String(v)) => v.clone(),
        _ => {
            return None;
        },
    };
    Some((key, val))
}

/// Reads an array of `{"key": .., "value": ..}` objects.
fn pairs_from(items: &Vec<Value>) -> (r: Option<Vec<(String, String)>>)
    ensures
        match r {
            Some(pairs) => pairs_of(values_view(items@)) == Some(pairs_view(pairs@)),
            None => pairs_of(values_view(items@)) is None,
        },
{
    let ghost views = values_view(items@);
    let mut pairs: Vec<(String, String)> = Vec::new();
    let mut i: usize = 0;
    while i < items.len()
        invariant
            0 <= i <= items@.len(),
            views == values_view(items@),
            pairs@.len() == i,
            forall|j: int|
                0 <= j < i ==> (#[trigger] pair_of(views[j])) == Some((pairs@[j].0@, pairs@[j].1@)),
        decreases items@.len() - i,
    {
        match pair_from(&items[i]) {
            Some(p) => {
                pairs.push(p);
            },
            None => {
                assert(pair_of(views[i as int]) is None);
                return None;
            },
        }
        i += 1;
    }
    proof {
        assert(pairs_of(views)->0 =~= pairs_view(pairs@));
    }
    Some(pairs)
}

impl VkError {
    /// Reads an error record from its JSON form.
    pub fn from_value(value: &Value) -> (r: Option<VkError>)
        ensures
            match r {
                Some(e) => error_of(value@) == Some(e@),
                None => error_of(value@) is None,
            },
    {
        let error_code: u16 = match value.get("error_code") {
            Some(Value::Number(literal)) => match parse_u16(literal.as_str()) {
                Some(code) => code,
                None => {
                    return None;
                },
            },
            _ => {
                return None;
            },
        };
        let error_msg = match value.get("error_msg") {
            Some(Value::String(msg)) => msg.clone(),
            _ => {
                return None;
            },
        };
        let request_params = match value.get("request_params") {
            None => None,
            Some(Value::Array(items)) => {
                proof {
                    lemma_view_array(*items);
                }
                match pairs_from(items) {
                    Some(pairs) => params_from_pairs(pairs),
                    None => {
                        return None;
                    },
                }
            },
            Some(_) => {
                return None;
            },
        };
        Some(VkError { error_code, error_msg, request_params })
    }

    /// Reads a JSON array of error records.
    pub fn list_from_value(items: &Vec<Value>) -> (r: Option<Vec<VkError>>)
        ensures
            match r {
                Some(errors) => errors_of(values_view(items@)) == Some(errors_view(errors@)),
                None => errors_of(values_view(items@)) is None,
            },
    {
        let ghost views = values_view(items@);
        let mut errors: Vec<VkError> = Vec::new();
        let mut i: usize = 0;
        while i < items.len()
            invariant
                0 <= i <= items@.len(),
                views == values_view(items@),
                errors@.len() == i,
                forall|j: int| 0 <= j < i ==> (#[trigger] error_of(views[j])) == Some(errors@[j]@),
            decreases items@.len() - i,
        {
            match VkError::from_value(&items[i]) {
                Some(e) => {
                    errors.push(e);
                },
                None => {
                    assert(error_of(views[i as int]) is None);
                    return None;
                },
            }
            i += 1;
        }
        proof {
            assert(errors_of(views)->0 =~= errors_view(errors@));
        }
        Some(errors)
    }
}

impl Clone for VkError {
    fn clone(&self) -> (r: Self)
        ensures
            r@ == self@,
    {
        let request_params = match &self.request_params {
            Some(pairs) => {
                let mut copy: Vec<(String, String)> = Vec::new();
                let mut i: usize = 0;
                while i < pairs.len()
                    invariant
                        0 <= i <= pairs@.len(),
                        copy@.len() == i,
                        forall|j: int| 0 <= j < i ==> copy@[j] == pairs@[j],
                    decreases pairs@.len() - i,
                {
                    copy.push((pairs[i].0.clone(), pairs[i].1.clone()));
                    i += 1;
                }
                proof {
                    assert(pairs_view(copy@) =~= pairs_view(pairs@));
                }
                Some(copy)
            },
            None => None,
        };
        VkError { error_code: self.error_code, error_msg: self.error_msg.clone(), request_params }
    }
}

impl<T> VkResult<T> {
    /// The value of an answer that holds one.
    pub fn unwrap(self) -> (r: T)
        requires
            self is Response,
        ensures
            self == VkResult::Response(r),
    {
        match self {
            VkResult::Response(response) => response,
            VkResult::Error(_) => vstd::pervasive::unreached(),
        }
    }

    /// The answer as a `Result`: the value, or the error record.
    pub fn into_result(self) -> (r: Result<T, VkError>)
        ensures
            r == match self {
                VkResult::Response(response) => Ok::<T, VkError>(response),
                VkResult::Error(error) => Err::<T, VkError>(error),
            },
    {
        match self {
            VkResult::Response(response) => Ok(response),
            VkResult::Error(error) => Err(error),
        }
    }
}

} // verus!
