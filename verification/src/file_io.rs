//! Holds functionality related to locating game files.

use vstd::prelude::*;
use vstd::string::StringExecFns;

verus! {

/// Gets the path to the game's input bindings file below the given assets
/// directory, using forward slashes as separators.
pub fn input_bindings_file(assets_dir: &str) -> (r: String)
    ensures
        r@ == assets_dir@ + "/data/input.ron"@,
{
    String::from_str(assets_dir).concat("/data/input.ron")
}

} // verus!
