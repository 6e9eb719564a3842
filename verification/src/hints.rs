//! Data and hooks shared with the running bootloader program.

pub mod references;
pub mod select_builtins;
pub mod types;
pub mod vars;

pub use references::{lookup_resolves, ApPosition, OffsetBase, ReferenceTracking};
pub use select_builtins::{
    count_from_be_bytes, enter_selection_scope, select_builtins_enter_scope,
    try_select_builtins_enter_scope,
};
pub use types::{
    pack, BootloaderConfig, BootloaderInput, CairoPieTask, OutputPacker, PackedOutput,
    RunProgramTask, TaskSpec,
};
pub use vars::{BOOTLOADER_INPUT, N_SELECTED_BUILTINS};
