//! The task model and the input record of an aggregated run.

use cairo_vm::types::program::Program;
use cairo_vm::vm::runners::cairo_pie::CairoPie;
use cairo_vm::Felt252;
use std::collections::HashMap;
use vstd::prelude::*;

verus! {

/// A program to execute, with its named inputs.
#[derive(Debug, PartialEq)]
pub struct RunProgramTask {
    pub program: Program,
    pub program_input: HashMap<String, serde_json::Value>,
    pub use_poseidon: bool,
}

/// An already executed program, given by its packaged trace and memory.
#[derive(Debug, PartialEq)]
pub struct CairoPieTask {
    pub cairo_pie: CairoPie,
    pub use_poseidon: bool,
}

/// One task of an aggregated run.
#[derive(Debug, PartialEq)]
pub enum TaskSpec {
    RunProgram(RunProgramTask),
    CairoPieTask(CairoPieTask),
}

impl TaskSpec {
    /// Whether the task declares the Poseidon builtin.
    pub open spec fn spec_use_poseidon(self) -> bool {
        match self {
            TaskSpec::RunProgram(task) => task.use_poseidon,
            TaskSpec::CairoPieTask(task) => task.use_poseidon,
        }
    }

    /// Whether the task declares the Poseidon builtin.
    pub fn use_poseidon(&self) -> (r: bool)
        ensures
            r == self.spec_use_poseidon(),
    {
        match self {
            TaskSpec::RunProgram(task) => task.use_poseidon,
            TaskSpec::CairoPieTask(task) => task.use_poseidon,
        }
    }
}

/// The packed form of one task's output region.
#[derive(Debug, PartialEq)]
pub enum PackedOutput {
    /// The raw field elements of the region, untouched.
    Plain(Vec<Felt252>),
}

impl View for PackedOutput {
    type V = Seq<Felt252>;

    /// The field elements that the packed output holds.
    open spec fn view(&self) -> Seq<Felt252> {
        match self {
            PackedOutput::Plain(elements) => elements@,
        }
    }
}

impl Default for PackedOutput {
    /// The placeholder of a task that has not finished: a plain output of no elements.
    fn default() -> (r: PackedOutput)
        ensures
            r@ == Seq::<Felt252>::empty(),
    {
        PackedOutput::Plain(Vec::new())
    }
}

impl PackedOutput {
    /// The field elements that the packed output holds, in order.
    pub fn elements(&self) -> (r: &Vec<Felt252>)
        ensures
            r@ == self@,
    {
        match self {
            PackedOutput::Plain(elements) => elements,
        }
    }
}

/// The packed form of a task's output region: the region itself, kept plain,
/// whichever task it belongs to.
pub open spec fn packed(task_index: usize, raw_output_region: Vec<Felt252>) -> PackedOutput {
    PackedOutput::Plain(raw_output_region)
}

/// Reading a packed region back gives the elements that went in, and packing
/// what was read gives the same packed output again.
pub proof fn lemma_pack_round_trip(
    task_index: usize,
    raw_output_region: Vec<Felt252>,
    read_back: Vec<Felt252>,
)
    requires
        read_back@ == packed(task_index, raw_output_region)@,
    ensures
        packed(task_index, raw_output_region)@ == raw_output_region@,
        packed(task_index, read_back)@ == packed(task_index, raw_output_region)@,
{
}

/// Packs the output region of the task at `task_index`. Every region is packed
/// plainly: the elements are kept as they are.
pub fn pack(task_index: usize, raw_output_region: Vec<Felt252>) -> (r: PackedOutput)
    ensures
        r == packed(task_index, raw_output_region),
        r@ == raw_output_region@,
{
    PackedOutput::Plain(raw_output_region)
}

/// The program hashes against which nested proofs are checked.
#[derive(Debug, PartialEq)]
pub struct BootloaderConfig {
    pub simple_bootloader_program_hash: Felt252,
    pub supported_cairo_verifier_program_hashes: Vec<Felt252>,
}

/// Everything the bootloader program is given for one aggregated run.
#[derive(Debug, PartialEq)]
pub struct BootloaderInput {
    pub tasks: Vec<TaskSpec>,
    pub bootloader_config: BootloaderConfig,
    pub packed_outputs: Vec<PackedOutput>,
    pub ignore_fact_topologies: bool,
}

impl BootloaderInput {
    /// Every task has its packed-output slot, and no slot is without a task.
    pub open spec fn well_formed(self) -> bool {
        self.packed_outputs@.len() == self.tasks@.len()
    }

    /// The input as it is before any task has run: every slot holds the empty placeholder.
    pub open spec fn is_fresh(self) -> bool {
        &&& self.well_formed()
        &&& forall|i: int|
            0 <= i < self.packed_outputs@.len() ==> (#[trigger] self.packed_outputs@[i])@
                == Seq::<Felt252>::empty()
    }

    /// `after` is `self` with the slot at `task_index` holding `elements`, and nothing else changed.
    pub open spec fn packed_into(
        self,
        after: BootloaderInput,
        task_index: int,
        elements: Seq<Felt252>,
    ) -> bool {
        &&& after.tasks == self.tasks
        &&& after.bootloader_config == self.bootloader_config
        &&& after.ignore_fact_topologies == self.ignore_fact_topologies
        &&& after.packed_outputs@.len() == self.packed_outputs@.len()
        &&& after.packed_outputs@[task_index]@ == elements
        &&& forall|i: int|
            0 <= i < self.packed_outputs@.len() && i != task_index
                ==> #[trigger] after.packed_outputs@[i] == self.packed_outputs@[i]
    }

    /// Assembles the input of a run from its task list, its configuration and
    /// the topology flag, with one empty placeholder per task.
    pub fn new(
        tasks: Vec<TaskSpec>,
        bootloader_config: BootloaderConfig,
        ignore_fact_topologies: bool,
    ) -> (r: BootloaderInput)
        ensures
            r.tasks == tasks,
            r.bootloader_config == bootloader_config,
            r.ignore_fact_topologies == ignore_fact_topologies,
            r.packed_outputs@.len() == tasks@.len(),
            r.is_fresh(),
    {
        let mut packed_outputs: Vec<PackedOutput> = Vec::new();
        let mut i: usize = 0;
        while i < tasks.len()
            invariant
                i <= tasks@.len(),
                packed_outputs@.len() == i,
                forall|k: int|
                    0 <= k < i ==> (#[trigger] packed_outputs@[k])@ == Seq::<Felt252>::empty(),
            decreases tasks@.len() - i,
        {
            packed_outputs.push(PackedOutput::default());
            i += 1;
        }
        BootloaderInput { tasks, bootloader_config, packed_outputs, ignore_fact_topologies }
    }

    /// Packs the output region of the task at `task_index` into its slot,
    /// which must still hold the empty placeholder. That keeps a packed
    /// region from being overwritten, but a slot into which an empty region
    /// was packed looks unwritten: only [`OutputPacker::pack_next`]
    /// guarantees that no slot is written twice and that the order of the
    /// tasks is kept.
    pub fn pack(&mut self, task_index: usize, raw_output_region: Vec<Felt252>)
        requires
            old(self).well_formed(),
            task_index < old(self).tasks@.len(),
            old(self).packed_outputs@[task_index as int]@ == Seq::<Felt252>::empty(),
        ensures
            final(self).well_formed(),
            old(self).packed_into(*final(self), task_index as int, raw_output_region@),
            final(self).packed_outputs@ == old(self).packed_outputs@.update(
                task_index as int,
                packed(task_index, raw_output_region),
            ),
    {
        let packed = pack(task_index, raw_output_region);
        self.packed_outputs.set(task_index, packed);
    }

    /// The packed output in the slot of the task at `task_index`.
    pub fn packed_output(&self, task_index: usize) -> (r: &PackedOutput)
        requires
            task_index < self.packed_outputs@.len(),
        ensures
            *r == self.packed_outputs@[task_index as int],
    {
        &self.packed_outputs[task_index]
    }
}

/// Keeps the order of packing: the outputs of a run are packed task by task,
/// each task once, in the order of the task list.
#[derive(Debug, PartialEq)]
pub struct OutputPacker {
    /// The number of tasks whose output has been packed, which is also the
    /// index of the task whose output is packed next.
    pub next_index: usize,
}

impl OutputPacker {
    /// The packer fits the input: the tasks before `next_index` have
    /// finished, and every slot from `next_index` on still holds the empty
    /// placeholder.
    pub open spec fn tracks(self, input: BootloaderInput) -> bool {
        &&& input.well_formed()
        &&& self.next_index <= input.tasks@.len()
        &&& forall|i: int|
            self.next_index <= i < input.packed_outputs@.len() ==> (
            #[trigger] input.packed_outputs@[i])@ == Seq::<Felt252>::empty()
    }

    /// A packer for an input of which no task has finished.
    pub fn new(input: &BootloaderInput) -> (r: OutputPacker)
        requires
            input.is_fresh(),
        ensures
            r.next_index == 0,
            r.tracks(*input),
    {
        OutputPacker { next_index: 0 }
    }

    /// Whether the output of every task of `input` has been packed.
    pub fn is_done(&self, input: &BootloaderInput) -> (r: bool)
        requires
            self.tracks(*input),
        ensures
            r == (self.next_index == input.tasks@.len()),
    {
        self.next_index == input.tasks.len()
    }

    /// Packs the output region of the next task into its slot. The task at
    /// `task_index` must be the next in order: no slot is written twice, and
    /// none before an earlier one.
    pub fn pack_next(
        &mut self,
        input: &mut BootloaderInput,
        task_index: usize,
        raw_output_region: Vec<Felt252>,
    )
        requires
            old(self).tracks(*old(input)),
            task_index == old(self).next_index,
            task_index < old(input).tasks@.len(),
        ensures
            final(self).next_index == old(self).next_index + 1,
            final(self).tracks(*final(input)),
            old(input).packed_into(*final(input), task_index as int, raw_output_region@),
            final(input).packed_outputs@ == old(input).packed_outputs@.update(
                task_index as int,
                packed(task_index, raw_output_region),
            ),
    {
        let n_tasks: usize = input.tasks.len();
        input.pack(task_index, raw_output_region);
        assert(self.next_index < n_tasks);
        self.next_index = self.next_index + 1;
    }
}

/// Packing in order never touches a slot again: what was packed for an
/// earlier task is still there after any later task is packed.
pub proof fn lemma_packed_slots_stay(
    before: BootloaderInput,
    after: BootloaderInput,
    packer: OutputPacker,
    elements: Seq<Felt252>,
)
    requires
        packer.tracks(before),
        packer.next_index < before.tasks@.len(),
        before.packed_into(after, packer.next_index as int, elements),
    ensures
        after.packed_outputs@.len() == after.tasks@.len(),
        forall|i: int|
            0 <= i < packer.next_index ==> #[trigger] after.packed_outputs@[i]
                == before.packed_outputs@[i],
        forall|i: int|
            packer.next_index < i < after.packed_outputs@.len() ==> (
            #[trigger] after.packed_outputs@[i])@ == Seq::<Felt252>::empty(),
{
}

/// What a name is bound to in a scope frame, as far as this library binds
/// or reads it.
pub enum ScopeValue {
    /// A count, such as the number of selected builtins.
    Count(usize),
    /// The input of the run.
    Input(BootloaderInput),
    /// Anything else.
    Other,
}

/// A freshly assembled input has as many slots as tasks, whatever the number of tasks.
pub proof fn lemma_fresh_slots_match_tasks(input: BootloaderInput)
    requires
        input.is_fresh(),
    ensures
        input.packed_outputs@.len() == input.tasks@.len(),
        input.tasks@.len() == 0 ==> input.packed_outputs@ == Seq::<PackedOutput>::empty(),
{
    if input.tasks@.len() == 0 {
        assert(input.packed_outputs@ =~= Seq::<PackedOutput>::empty());
    }
}

} // verus!
