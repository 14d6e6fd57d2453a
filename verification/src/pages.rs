//! The static pages that the bare paths lead to.

use vstd::prelude::*;

verus! {

/// Where `/` leads.
pub fn html_index() -> (target: &'static str)
    ensures
        target@ == "index.html"@,
{
    "index.html"
}

/// Where `/eula` leads.
pub fn html_eula() -> (target: &'static str)
    ensures
        target@ == "eula.html"@,
{
    "eula.html"
}

} // verus!
