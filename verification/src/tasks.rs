//! The task builder: from program sources, their inputs and trace archives to
//! the ordered task list of a run.

use crate::engine::{insert_input, parse_pie, parse_program, parsed_pie, parsed_program, scope_frames};
use crate::hints::types::{BootloaderInput, CairoPieTask, RunProgramTask, ScopeValue, TaskSpec};
use crate::hints::vars::BOOTLOADER_INPUT;
use cairo_vm::types::errors::program_errors::ProgramError;
use cairo_vm::types::exec_scope::ExecutionScopes;
use cairo_vm::vm::runners::cairo_pie::CairoPie;
use std::collections::HashMap;
use vstd::prelude::*;

verus! {

/// Why no task list could be built.
#[derive(Debug)]
pub enum BootloaderTaskError {
    /// A program's source could not be parsed.
    Program(ProgramError),
    /// A trace archive could not be unpacked.
    Pie(std::io::Error),
    /// Programs and program inputs were both given, but not one input per program.
    InputCountMismatch { programs: usize, program_inputs: usize },
}

/// The entry point at which every program task starts.
pub open spec fn main_entrypoint() -> Option<Seq<char>> {
    Some("main"@)
}

/// The items of an optional list, none where the list is absent.
pub open spec fn given<T>(list: Option<&[T]>) -> Seq<T> {
    match list {
        Some(items) => items@,
        None => Seq::empty(),
    }
}

/// Programs and inputs are both given and differ in number.
pub open spec fn counts_mismatch(
    programs: Option<&[Vec<u8>]>,
    program_inputs: Option<&[HashMap<String, serde_json::Value>]>,
) -> bool {
    programs is Some && program_inputs is Some && given(programs).len() != given(
        program_inputs,
    ).len()
}

/// The program sources that become tasks: those given, provided inputs are given too.
pub open spec fn paired_programs(
    programs: Option<&[Vec<u8>]>,
    program_inputs: Option<&[HashMap<String, serde_json::Value>]>,
) -> Seq<Vec<u8>> {
    if programs is Some && program_inputs is Some {
        given(programs)
    } else {
        Seq::empty()
    }
}

/// The source at `index` is the first of `sources` that does not parse as a program.
pub open spec fn first_bad_program(sources: Seq<Vec<u8>>, index: int) -> bool {
    &&& 0 <= index < sources.len()
    &&& parsed_program(sources[index]@, main_entrypoint()) is None
    &&& forall|k: int|
        0 <= k < index ==> (#[trigger] parsed_program(sources[k]@, main_entrypoint())) is Some
}

/// The archive at `index` is the first of `archives` that does not unpack.
pub open spec fn first_bad_pie(archives: Seq<Vec<u8>>, index: int) -> bool {
    &&& 0 <= index < archives.len()
    &&& parsed_pie(archives[index]@) is Err
    &&& forall|k: int| 0 <= k < index ==> (#[trigger] parsed_pie(archives[k]@)) is Ok
}

/// Every one of `sources` parses as a program.
pub open spec fn all_programs_parse(sources: Seq<Vec<u8>>) -> bool {
    forall|k: int|
        0 <= k < sources.len() ==> (#[trigger] parsed_program(sources[k]@, main_entrypoint())) is Some
}

/// Every one of `archives` unpacks.
pub open spec fn all_pies_parse(archives: Seq<Vec<u8>>) -> bool {
    forall|k: int| 0 <= k < archives.len() ==> (#[trigger] parsed_pie(archives[k]@)) is Ok
}

/// `task` runs the program parsed from `source` on `input`, without Poseidon.
pub open spec fn is_program_task(
    task: TaskSpec,
    source: Seq<u8>,
    input: Map<String, serde_json::Value>,
) -> bool {
    match task {
        TaskSpec::RunProgram(run) => {
            &&& parsed_program(source, main_entrypoint()) == Some(run.program)
            &&& run.program_input@ == input
            &&& !run.use_poseidon
        },
        TaskSpec::CairoPieTask(_) => false,
    }
}

/// `task` replays the trace unpacked from `archive`, without Poseidon.
pub open spec fn is_pie_task(task: TaskSpec, archive: Seq<u8>) -> bool {
    match task {
        TaskSpec::RunProgram(_) => false,
        TaskSpec::CairoPieTask(replay) => {
            &&& parsed_pie(archive) == Ok::<CairoPie, std::io::Error>(replay.cairo_pie)
            &&& !replay.use_poseidon
        },
    }
}

/// `tasks` is the task list of the given sources: one program task per source
/// and input, in their order, then one trace task per archive, in their order.
pub open spec fn is_task_list(
    tasks: Seq<TaskSpec>,
    sources: Seq<Vec<u8>>,
    inputs: Seq<HashMap<String, serde_json::Value>>,
    archives: Seq<Vec<u8>>,
) -> bool {
    &&& tasks.len() == sources.len() + archives.len()
    &&& forall|i: int|
        0 <= i < sources.len() && i < inputs.len() ==> is_program_task(
            #[trigger] tasks[i],
            sources[i]@,
            inputs[i]@,
        )
    &&& forall|j: int|
        0 <= j < archives.len() ==> is_pie_task(
            #[trigger] tasks[sources.len() + j],
            archives[j]@,
        )
}

/// At most one source is the first that does not parse, so the source that
/// a failed build stopped at is determined by the sources.
pub proof fn lemma_first_bad_program_is_unique(sources: Seq<Vec<u8>>, i: int, j: int)
    requires
        first_bad_program(sources, i),
        first_bad_program(sources, j),
    ensures
        i == j,
        !all_programs_parse(sources),
{
    if i < j {
        assert(parsed_program(sources[i]@, main_entrypoint()) is Some);
    }
    if j < i {
        assert(parsed_program(sources[j]@, main_entrypoint()) is Some);
    }
}

/// At most one archive is the first that does not unpack.
pub proof fn lemma_first_bad_pie_is_unique(archives: Seq<Vec<u8>>, i: int, j: int)
    requires
        first_bad_pie(archives, i),
        first_bad_pie(archives, j),
    ensures
        i == j,
        !all_pies_parse(archives),
{
    if i < j {
        assert(parsed_pie(archives[i]@) is Ok);
    }
    if j < i {
        assert(parsed_pie(archives[j]@) is Ok);
    }
}

/// In a task list the program tasks come first, as many as there are
/// sources, and every task after them is a trace task: the list is as long
/// as sources and archives together.
pub proof fn lemma_programs_precede_pies(
    tasks: Seq<TaskSpec>,
    sources: Seq<Vec<u8>>,
    inputs: Seq<HashMap<String, serde_json::Value>>,
    archives: Seq<Vec<u8>>,
)
    requires
        sources.len() == inputs.len(),
        is_task_list(tasks, sources, inputs, archives),
    ensures
        tasks.len() == sources.len() + archives.len(),
        forall|i: int| 0 <= i < sources.len() ==> (#[trigger] tasks[i]) is RunProgram,
        forall|i: int| sources.len() <= i < tasks.len() ==> (#[trigger] tasks[i]) is CairoPieTask,
        forall|i: int|
            0 <= i < sources.len() ==> is_program_task(#[trigger] tasks[i], sources[i]@, inputs[i]@),
        forall|i: int|
            sources.len() <= i < tasks.len() ==> is_pie_task(
                #[trigger] tasks[i],
                archives[i - sources.len()]@,
            ),
{
    assert forall|i: int| sources.len() <= i < tasks.len() implies is_pie_task(
        #[trigger] tasks[i],
        archives[i - sources.len()]@,
    ) by {
        let j = i - sources.len();
        assert(is_pie_task(tasks[sources.len() + j], archives[j]@));
    }
}

/// Appends one program task per source to `tasks`, stopping at the first
/// source that does not parse.
fn push_program_tasks(
    tasks: &mut Vec<TaskSpec>,
    programs: &[Vec<u8>],
    program_inputs: &[HashMap<String, serde_json::Value>],
) -> (r: Result<(), BootloaderTaskError>)
    requires
        old(tasks)@.len() == 0,
        programs@.len() == program_inputs@.len(),
    ensures
        r is Ok <==> all_programs_parse(programs@),
        r is Ok ==> is_task_list(final(tasks)@, programs@, program_inputs@, Seq::empty()),
        r is Err ==> r matches Err(BootloaderTaskError::Program(_)),
        r is Err ==> exists|i: int| #[trigger] first_bad_program(programs@, i),
{
    let mut i: usize = 0;
    while i < programs.len()
        invariant
            i <= programs@.len(),
            programs@.len() == program_inputs@.len(),
            tasks@.len() == i,
            forall|k: int|
                0 <= k < i ==> (#[trigger] parsed_program(programs@[k]@, main_entrypoint())) is Some,
            forall|k: int|
                0 <= k < i ==> is_program_task(
                    #[trigger] tasks@[k],
                    programs@[k]@,
                    program_inputs@[k]@,
                ),
        decreases programs@.len() - i,
    {
        match parse_program(programs[i].as_slice(), Some("main")) {
            Ok(program) => {
                tasks.push(
                    TaskSpec::RunProgram(
                        RunProgramTask {
                            program,
                            program_input: program_inputs[i].clone(),
                            use_poseidon: false,
                        },
                    ),
                );
            },
            Err(cause) => {
                proof {
                    assert(first_bad_program(programs@, i as int));
                }
                return Err(BootloaderTaskError::Program(cause));
            },
        }
        i += 1;
    }
    Ok(())
}

/// Appends one trace task per archive to `tasks`, stopping at the first
/// archive that does not unpack.
fn push_pie_tasks(tasks: &mut Vec<TaskSpec>, pies: &[Vec<u8>]) -> (r: Result<
    (),
    BootloaderTaskError,
>)
    ensures
        r is Ok <==> all_pies_parse(pies@),
        r is Ok ==> final(tasks)@.len() == old(tasks)@.len() + pies@.len(),
        r is Ok ==> forall|k: int|
            0 <= k < old(tasks)@.len() ==> #[trigger] final(tasks)@[k] == old(tasks)@[k],
        r is Ok ==> forall|j: int|
            0 <= j < pies@.len() ==> is_pie_task(
                #[trigger] final(tasks)@[old(tasks)@.len() + j],
                pies@[j]@,
            ),
        r is Err ==> exists|j: int|
            #![trigger first_bad_pie(pies@, j)]
            first_bad_pie(pies@, j) && r == Err::<(), BootloaderTaskError>(
                BootloaderTaskError::Pie(parsed_pie(pies@[j]@)->Err_0),
            ),
{
    let ghost before = tasks@;
    let mut j: usize = 0;
    while j < pies.len()
        invariant
            j <= pies@.len(),
            tasks@.len() == before.len() + j,
            forall|k: int| 0 <= k < before.len() ==> #[trigger] tasks@[k] == before[k],
            forall|k: int| 0 <= k < j ==> (#[trigger] parsed_pie(pies@[k]@)) is Ok,
            forall|k: int|
                0 <= k < j ==> is_pie_task(#[trigger] tasks@[before.len() + k], pies@[k]@),
        decreases pies@.len() - j,
    {
        match parse_pie(pies[j].as_slice()) {
            Ok(cairo_pie) => {
                tasks.push(TaskSpec::CairoPieTask(CairoPieTask { cairo_pie, use_poseidon: false }));
            },
            Err(cause) => {
                proof {
                    assert(first_bad_pie(pies@, j as int));
                }
                return Err(BootloaderTaskError::Pie(cause));
            },
        }
        j += 1;
    }
    Ok(())
}

/// Builds the task list of a run from the contents of the program files, the
/// inputs of the programs and the contents of the trace archives.
///
/// Programs become tasks only where inputs are given too, and then there must
/// be one input per program. The first source that fails to load decides the
/// error: programs are loaded before archives, each group in its order. Of a
/// program that fails to parse the error carries the engine's cause, which
/// the sources need not determine.
pub fn make_bootloader_tasks(
    programs: Option<&[Vec<u8>]>,
    program_inputs: Option<&[HashMap<String, serde_json::Value>]>,
    pies: Option<&[Vec<u8>]>,
) -> (r: Result<Vec<TaskSpec>, BootloaderTaskError>)
    ensures
        counts_mismatch(programs, program_inputs) <==> (r matches Err(
            BootloaderTaskError::InputCountMismatch { .. },
        )),
        r matches Err(BootloaderTaskError::InputCountMismatch { programs: n, program_inputs: m })
            ==> n == given(programs).len() && m == given(program_inputs).len(),
        r is Ok <==> !counts_mismatch(programs, program_inputs) && all_programs_parse(
            paired_programs(programs, program_inputs),
        ) && all_pies_parse(given(pies)),
        r matches Ok(tasks) ==> is_task_list(
            tasks@,
            paired_programs(programs, program_inputs),
            given(program_inputs),
            given(pies),
        ),
        (r matches Err(BootloaderTaskError::Program(_))) <==> !counts_mismatch(
            programs,
            program_inputs,
        ) && !all_programs_parse(paired_programs(programs, program_inputs)),
        (r matches Err(BootloaderTaskError::Pie(_))) <==> !counts_mismatch(programs, program_inputs)
            && all_programs_parse(paired_programs(programs, program_inputs)) && !all_pies_parse(
            given(pies),
        ),
        (r matches Err(BootloaderTaskError::Program(_))) ==> exists|i: int|
            #[trigger] first_bad_program(paired_programs(programs, program_inputs), i),
        r matches Err(BootloaderTaskError::Pie(cause)) ==> all_programs_parse(
            paired_programs(programs, program_inputs),
        ) && exists|j: int|
            #![trigger first_bad_pie(given(pies), j)]
            first_bad_pie(given(pies), j) && parsed_pie(given(pies)[j]@) == Err::<
                CairoPie,
                std::io::Error,
            >(cause),
{
    let mut tasks: Vec<TaskSpec> = Vec::new();
    match (programs, program_inputs) {
        (Some(sources), Some(inputs)) => {
            if sources.len() != inputs.len() {
                return Err(
                    BootloaderTaskError::InputCountMismatch {
                        programs: sources.len(),
                        program_inputs: inputs.len(),
                    },
                );
            }
            match push_program_tasks(&mut tasks, sources, inputs) {
                Ok(()) => {},
                Err(error) => {
                    return Err(error);
                },
            }
        },
        _ => {},
    }
    assert(all_programs_parse(paired_programs(programs, program_inputs)));
    match pies {
        Some(archives) => {
            match push_pie_tasks(&mut tasks, archives) {
                Ok(()) => {},
                Err(error) => {
                    proof {
                        let j = choose|j: int|
                            #![trigger first_bad_pie(archives@, j)]
                            first_bad_pie(archives@, j) && error == BootloaderTaskError::Pie(
                                parsed_pie(archives@[j]@)->Err_0,
                            );
                        assert(first_bad_pie(given(pies), j));
                        assert(error matches BootloaderTaskError::Pie(cause) && parsed_pie(
                            given(pies)[j]@,
                        ) == Err::<CairoPie, std::io::Error>(cause));
                    }
                    return Err(error);
                },
            }
        },
        None => {},
    }
    Ok(tasks)
}

/// Stores the bootloader input in the innermost scope frame, under the name
/// at which the bootloader's hints look for it. Without any frame the scopes
/// stay as they are.
pub fn insert_bootloader_input(exec_scopes: &mut ExecutionScopes, bootloader_input: BootloaderInput)
    ensures
        scope_frames(*old(exec_scopes)).len() == 0 ==> scope_frames(*final(exec_scopes))
            == scope_frames(*old(exec_scopes)),
        scope_frames(*old(exec_scopes)).len() > 0 ==> scope_frames(*final(exec_scopes))
            == scope_frames(*old(exec_scopes)).update(
            scope_frames(*old(exec_scopes)).len() - 1,
            scope_frames(*old(exec_scopes)).last().insert(
                BOOTLOADER_INPUT@,
                ScopeValue::Input(bootloader_input),
            ),
        ),
{
    insert_input(exec_scopes, BOOTLOADER_INPUT, bootloader_input);
}

} // verus!
