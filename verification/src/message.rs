//! The messages that flow from the concurrent triggers to the dispatch
//! loop.

use vstd::prelude::*;

verus! {

/// The unique identity of a feature, assigned at startup from the feature
/// kind and its ordinal position in the configuration.
pub type FeatureId = String;

/// A message on the shared channel: either a request to refresh one
/// feature, or the request to stop consuming messages.
#[derive(Debug)]
pub enum Message {
    Refresh(FeatureId),
    Terminate,
}

} // verus!
