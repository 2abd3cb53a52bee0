//! The errors that a caller can be handed in place of a value.

use crate::vk_error::{VkError, VkErrorView};
use hyper::Error as HyperError;
use std::sync::Arc;
use vstd::prelude::*;
use vstd::std_specs::convert::FromSpecImpl;

verus! {

/// hyper's error type. Nothing inside it is read here: a value of it is
/// carried from the transport to the callers.
#[verifier::external_type_specification]
#[verifier::external_body]
pub struct ExHyperError(HyperError);

/// An [`Error`] as a mathematical value.
pub enum ErrorView {
    VK(VkErrorView),
    SharedVK(VkErrorView),
    Network(HyperError),
    Malformed,
}

/// The errors that may occur during processing a method call.
#[derive(Debug)]
pub enum Error {
    /// An error of the provider that belongs to one call alone.
    VK(Box<VkError>),
    /// An error of the provider that failed a whole batch: every caller of
    /// the batch holds the same record.
    SharedVK(Arc<VkError>),
    /// The transport failed: every caller of the request holds the same cause.
    Network(Arc<HyperError>),
    /// The provider's answer could not be read as an envelope.
    Malformed,
}

impl View for Error {
    type V = ErrorView;

    open spec fn view(&self) -> ErrorView {
        match self {
            Error::VK(error) => ErrorView::VK(error@),
            Error::SharedVK(error) => ErrorView::SharedVK(error@),
            Error::Network(cause) => ErrorView::Network(**cause),
            Error::Malformed => ErrorView::Malformed,
        }
    }
}

/// `Arc::clone` of std: one more handle on the value that `handle` points to.
#[verifier::external_body]
fn share<T>(handle: &Arc<T>) -> (r: Arc<T>)
    ensures
        r == *handle,
{
    Arc::clone(handle)
}

impl Clone for Error {
    /// A shared error is not copied: the clone points to the same record or
    /// cause.
    fn clone(&self) -> (r: Self)
        ensures
            r@ == self@,
    {
        match self {
            Error::VK(error) => {
                let copy: VkError = (**error).clone();
                Error::VK(Box::new(copy))
            },
            Error::SharedVK(error) => Error::SharedVK(share(error)),
            Error::Network(cause) => Error::Network(share(cause)),
            Error::Malformed => Error::Malformed,
        }
    }
}

impl From<VkError> for Error {
    fn from(error: VkError) -> (r: Self) {
        Error::VK(Box::new(error))
    }
}

impl FromSpecImpl<VkError> for Error {
    open spec fn obeys_from_spec() -> bool {
        true
    }

    open spec fn from_spec(error: VkError) -> Self {
        Error::VK(Box::new(error))
    }
}

impl From<Arc<VkError>> for Error {
    fn from(error: Arc<VkError>) -> (r: Self) {
        Error::SharedVK(error)
    }
}

impl FromSpecImpl<Arc<VkError>> for Error {
    open spec fn obeys_from_spec() -> bool {
        true
    }

    open spec fn from_spec(error: Arc<VkError>) -> Self {
        Error::SharedVK(error)
    }
}

impl From<Arc<HyperError>> for Error {
    fn from(error: Arc<HyperError>) -> (r: Self) {
        Error::Network(error)
    }
}

impl FromSpecImpl<Arc<HyperError>> for Error {
    open spec fn obeys_from_spec() -> bool {
        true
    }

    open spec fn from_spec(error: Arc<HyperError>) -> Self {
        Error::Network(error)
    }
}

} // verus!
