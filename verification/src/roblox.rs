//! Recognizing the gameplay target process: the focus oracle asks
//! whether the foreground window belongs to the game by its executable
//! path.

use vstd::prelude::*;

use crate::text;

verus! {

/// Whether an executable path names the game process, ignoring ASCII
/// case (the platform reports paths in varying case).
pub fn is_roblox_process_path(path: &str) -> (r: bool)
    ensures
        r == text::spec_contains_ci(path@, "robloxplayerbeta.exe"@),
{
    text::str_contains_ci(path, "robloxplayerbeta.exe")
}

} // verus!
