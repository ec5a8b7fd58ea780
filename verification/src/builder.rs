use vstd::prelude::*;

use crate::tags::BuildError;

verus! {

/// The capability a surface configuration exposes: consume the configuration
/// and realize a surface. Realization is described by the plan the builder
/// hands back; the embedder carries the plan out against the host toolkit.
///
/// `build` takes `self` by value, so a configured entity is consumed by the
/// one build and can never be built twice: one-shot use is enforced by
/// ownership, not by a runtime flag.
pub trait Builder: Sized {
    /// The realization plan this builder produces.
    type Plan;

    /// What a completed build must have produced for this configuration.
    spec fn planned(self, r: Result<Self::Plan, BuildError>) -> bool;

    /// Consume the configuration and produce its realization plan, or report
    /// the placeholder tag that may never be realized.
    fn build(self) -> (r: Result<Self::Plan, BuildError>)
        ensures
            self.planned(r),
    ;
}

} // verus!
