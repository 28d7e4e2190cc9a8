//! The plain metrics page of the overlay.

use vstd::prelude::*;

verus! {

/// The page that shows nothing but its title.
#[derive(Default)]
pub struct Metrics;

impl Metrics {
    /// The title of the page.
    pub fn name(&self) -> (name: &'static str)
        ensures
            name@ == "metrics"@,
    {
        "metrics"
    }
}

} // verus!
