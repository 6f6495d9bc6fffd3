//! Sampler classification used when describing sampler bindings.

use vstd::prelude::*;

verus! {

/// How a sampler picks texels between sample points.
#[derive(Clone, Copy, Debug, PartialEq, Eq, Structural)]
pub enum FilterMode {
    /// Take the nearest texel.
    Nearest,
    /// Interpolate linearly between neighbouring texels.
    Linear,
}

/// The three filter settings of a sampler that decide whether it filters.
#[derive(Clone, Copy, Debug, PartialEq, Eq, Structural)]
pub struct SamplerFilters {
    pub mag_filter: FilterMode,
    pub min_filter: FilterMode,
    pub mipmap_filter: FilterMode,
}

/// A sampler filters unless all three of its modes are `Nearest`.
pub open spec fn spec_sampler_filtering(desc: SamplerFilters) -> bool {
    !(desc.mag_filter == FilterMode::Nearest && desc.min_filter == FilterMode::Nearest
        && desc.mipmap_filter == FilterMode::Nearest)
}

/// Whether the described sampler might perform linear filtering.
pub fn sampler_filtering(desc: &SamplerFilters) -> (filtering: bool)
    ensures
        filtering == spec_sampler_filtering(*desc),
{
    match (desc.mag_filter, desc.min_filter, desc.mipmap_filter) {
        (FilterMode::Nearest, FilterMode::Nearest, FilterMode::Nearest) => false,
        _ => true,
    }
}

} // verus!
