//! Names of the scope variables that the bootloader program and its hints share.

use vstd::prelude::*;

verus! {

/// Scope variable under which the bootloader input is stored for the run.
pub const BOOTLOADER_INPUT: &'static str = "bootloader_input";

/// Scope variable that holds the number of builtins selected for the current task.
pub const N_SELECTED_BUILTINS: &'static str = "n_selected_builtins";

} // verus!
