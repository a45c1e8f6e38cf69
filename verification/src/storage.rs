//! Naming for the saved screenshot file. The directory lookup, the clock and
//! the file write belong to the surrounding shell; the name's shape is fixed
//! here.

use vstd::prelude::*;
use vstd::string::StringExecFns;

verus! {

/// The file name of a screenshot saved at the given timestamp, which the
/// caller formats from the local time.
pub fn screenshot_filename(timestamp: &str) -> (r: String)
    ensures
        r@ == "Screenshot_"@ + timestamp@ + ".png"@,
{
    let mut name = String::from_str("Screenshot_");
    name.append(timestamp);
    name.append(".png");
    name
}

} // verus!
