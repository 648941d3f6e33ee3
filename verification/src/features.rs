//! Who sees features that are not yet released to everyone.

use vstd::prelude::*;

verus! {

/// Whether the channels feature is available: staff always have it, everyone
/// else needs the alpha flag.
pub fn is_channels_feature_enabled(is_staff: bool, has_channels_alpha: bool) -> (enabled: bool)
    ensures
        enabled == (is_staff || has_channels_alpha),
{
    is_staff || has_channels_alpha
}

} // verus!
