use vstd::prelude::*;

verus! {

/// Colour-managed conversion through an embedded ICC profile is not supported:
/// every profile is reported as not loaded, and callers fall back to the
/// naive CMYK-to-RGB formula.
pub fn load_icc_profile(_profile_data: &[u8]) -> (loaded: bool)
    ensures
        !loaded,
{
    false
}

} // verus!
