//! The adapter that publishes to `dev.to`.

use vstd::prelude::*;
use crate::domain::blog::ports::BlogPublisher;

verus! {

/// A publisher that does not publish yet.
#[derive(Debug, Clone)]
pub struct DevToPublisher;

impl BlogPublisher for DevToPublisher {
    fn publish_to_dev_to(&self) {
    }
}

} // verus!
