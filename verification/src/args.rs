//! What a caller chooses for one run of the bootloader.

use cairo_vm::types::layout_name::LayoutName;
use std::path::PathBuf;
use vstd::prelude::*;

verus! {

/// The commands of the command line.
#[derive(Debug)]
pub enum Cli {
    RunBootloaderArgs,
}

/// The choices for one run: what to aggregate, under which layout, and where
/// the results go.
#[derive(Debug)]
pub struct RunBootloaderArgs {
    /// The compiled programs to run as tasks.
    pub cairo_programs: Option<Vec<PathBuf>>,
    /// The trace archives to replay as tasks.
    pub cairo_pies: Option<Vec<PathBuf>>,
    /// The memory layout of the run.
    pub layout: LayoutName,
    /// Where the proof input is written.
    pub output: PathBuf,
    /// Where the fact topologies are written.
    pub fact_topologies_output: PathBuf,
    /// Whether all task outputs go to one public memory page, with no
    /// topology recorded per task.
    pub ignore_fact_topologies: bool,
}

} // verus!
