//! macOS finalization: the extracted application bundle needs no registration.

use vstd::prelude::*;
use crate::platform::FinalizeStep;

verus! {

/// The bundle laid out by extraction is complete, so nothing is written.
pub fn finalize_install(install_dir: &str) -> (r: Vec<FinalizeStep>)
    ensures
        r@.len() == 0,
{
    Vec::new()
}

} // verus!
