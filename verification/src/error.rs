//! Error kinds reported by the bootstrap protocol.

use vstd::prelude::*;

verus! {

/// Every failure the bootstrap core can report. Each `init` step surfaces its
/// native-driver failure immediately as one of these kinds; none is retried.
#[derive(Debug, Clone, Copy, PartialEq, Eq, Structural)]
pub enum VkError {
    CStringError,
    FailedToCreateInstance,
    FailedToCreateKHRSurface,
    FailedToCreateValidationLayer,
    FailedToCreateDebugUtils,
    FailedToInitVulkan,
    InstanceNotInitialized,
    ValidationLayersUnavailable,
}

} // verus!
