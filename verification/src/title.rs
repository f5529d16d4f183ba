//! The status card of the title bar.
use vstd::prelude::*;

verus! {

/// A card that shows the model in use.
pub struct StatusCard {
    model: String,
}

} // verus!
