use cairo_bootloader::hints::{
    count_from_be_bytes, BootloaderConfig, BootloaderInput, CairoPieTask, OutputPacker,
    PackedOutput, RunProgramTask, TaskSpec,
};
use cairo_bootloader::tasks::make_bootloader_tasks;
use cairo_vm::Felt252;
use num_traits::ToPrimitive;
use std::collections::HashMap;

fn source() -> Vec<u8> {
    "{\"prime\":\"0x800000000000011000000000000000000000000000000000000000000000001\",\
     \"builtins\":[],\"data\":[],\
     \"identifiers\":{\"__main__.main\":{\"pc\":0,\"type\":\"function\"}},\
     \"hints\":{},\"reference_manager\":{\"references\":[]},\
     \"attributes\":[],\"debug_info\":null}"
        .as_bytes()
        .to_vec()
}

fn three_task_input() -> BootloaderInput {
    let programs = vec![source(), source(), source()];
    let inputs: Vec<HashMap<String, serde_json::Value>> =
        vec![HashMap::new(), HashMap::new(), HashMap::new()];
    let tasks = make_bootloader_tasks(Some(&programs), Some(&inputs), None).unwrap();
    let config = BootloaderConfig {
        simple_bootloader_program_hash: Felt252::from(1),
        supported_cairo_verifier_program_hashes: vec![Felt252::from(2), Felt252::from(3)],
    };
    BootloaderInput::new(tasks, config, false)
}

fn felts(values: &[u64]) -> Vec<Felt252> {
    values.iter().map(|value| Felt252::from(*value)).collect()
}

#[test]
fn assembly_keeps_what_it_is_given() {
    let input = three_task_input();
    assert_eq!(input.tasks.len(), 3);
    assert_eq!(input.packed_outputs.len(), 3);
    assert_eq!(input.bootloader_config.simple_bootloader_program_hash, Felt252::from(1));
    assert_eq!(input.bootloader_config.supported_cairo_verifier_program_hashes, felts(&[2, 3]));
    assert!(!input.ignore_fact_topologies);
}

#[test]
fn pack_writes_one_slot_only() {
    let mut input = three_task_input();
    input.pack(1, felts(&[10, 20]));
    assert_eq!(input.packed_outputs.len(), 3);
    assert_eq!(*input.packed_output(0), PackedOutput::Plain(vec![]));
    assert_eq!(*input.packed_output(1), PackedOutput::Plain(felts(&[10, 20])));
    assert_eq!(*input.packed_output(2), PackedOutput::Plain(vec![]));
    assert_eq!(*input.packed_output(1).elements(), felts(&[10, 20]));
    assert_eq!(input.tasks.len(), 3);
}

#[test]
fn packer_goes_through_the_tasks_in_order() {
    let mut input = three_task_input();
    let mut packer = OutputPacker::new(&input);
    assert_eq!(packer.next_index, 0);
    assert!(!packer.is_done(&input));
    packer.pack_next(&mut input, 0, felts(&[1]));
    assert_eq!(packer.next_index, 1);
    packer.pack_next(&mut input, 1, felts(&[2, 3]));
    assert!(!packer.is_done(&input));
    assert_eq!(*input.packed_output(2), PackedOutput::Plain(vec![]));
    packer.pack_next(&mut input, 2, felts(&[]));
    assert_eq!(packer.next_index, 3);
    assert!(packer.is_done(&input));
    assert_eq!(
        input.packed_outputs,
        vec![
            PackedOutput::Plain(felts(&[1])),
            PackedOutput::Plain(felts(&[2, 3])),
            PackedOutput::Plain(felts(&[])),
        ]
    );
}

#[test]
fn packer_of_an_empty_run_is_done() {
    let config = BootloaderConfig {
        simple_bootloader_program_hash: Felt252::from(0),
        supported_cairo_verifier_program_hashes: vec![],
    };
    let input = BootloaderInput::new(vec![], config, true);
    let packer = OutputPacker::new(&input);
    assert!(packer.is_done(&input));
}

#[test]
fn use_poseidon_is_read_from_either_variant() {
    let mut tasks = make_bootloader_tasks(Some(&[source()]), Some(&[HashMap::new()]), None).unwrap();
    let task = tasks.pop().unwrap();
    assert!(!task.use_poseidon());
    match task {
        TaskSpec::RunProgram(run) => {
            let with_poseidon = TaskSpec::RunProgram(RunProgramTask {
                program: run.program,
                program_input: run.program_input,
                use_poseidon: true,
            });
            assert!(with_poseidon.use_poseidon());
        }
        TaskSpec::CairoPieTask(CairoPieTask { .. }) => panic!("a program was given"),
    }
}

#[test]
fn count_agrees_with_the_field_element() {
    let samples = [
        Felt252::from(0),
        Felt252::from(7),
        Felt252::from(u32::MAX),
        Felt252::from(u64::MAX),
        Felt252::from(u64::MAX as u128 + 1),
        Felt252::from(u128::MAX),
        Felt252::from(-1),
        Felt252::MAX,
    ];
    for sample in samples {
        assert_eq!(count_from_be_bytes(&sample.to_bytes_be()), sample.to_usize());
    }
}
