use cairo_bootloader::hints::{
    lookup_resolves, try_select_builtins_enter_scope, ApPosition, OffsetBase, ReferenceTracking,
    N_SELECTED_BUILTINS,
};
use cairo_vm::hint_processor::hint_processor_definition::HintReference;
use cairo_vm::serde::deserialize_program::{ApTracking, OffsetValue};
use cairo_vm::types::exec_scope::ExecutionScopes;
use cairo_vm::types::instruction::Register;
use cairo_vm::types::relocatable::Relocatable;
use cairo_vm::vm::errors::hint_errors::HintError;
use cairo_vm::vm::vm_core::VirtualMachine;
use cairo_vm::Felt252;
use std::collections::HashMap;

fn ap_reference(offset: i32, recorded: Option<ApTracking>) -> HintReference {
    HintReference {
        offset1: OffsetValue::Reference(Register::AP, offset, false, true),
        offset2: OffsetValue::Value(0),
        inner_dereference: false,
        outer_dereference: true,
        ap_tracking_data: recorded,
        cairo_type: None,
    }
}

fn ids_with(reference: HintReference) -> HashMap<String, HintReference> {
    HashMap::from([(N_SELECTED_BUILTINS.to_string(), reference)])
}

fn machine_with_count_at_ap_minus_one(count: u64) -> VirtualMachine {
    let mut vm = VirtualMachine::new(false, false);
    vm.add_memory_segment();
    vm.add_memory_segment();
    vm.insert_value(Relocatable::from((1, 2)), Felt252::from(count)).unwrap();
    vm.set_ap(3);
    vm.set_fp(0);
    vm
}

fn tracking(first: OffsetBase, second: OffsetBase, position: Option<(usize, usize)>) -> ReferenceTracking {
    ReferenceTracking {
        first,
        second,
        position: position.map(|(group, offset)| ApPosition { group, offset }),
    }
}

#[test]
fn reference_ahead_of_the_hint_is_not_looked_up() {
    let mut vm = machine_with_count_at_ap_minus_one(7);
    let ids_data = ids_with(ap_reference(0, Some(ApTracking { group: 0, offset: 1 })));
    let ap_tracking = ApTracking::default();
    let mut exec_scopes = ExecutionScopes::new();

    assert!(!lookup_resolves(N_SELECTED_BUILTINS, &ids_data, &ap_tracking));
    let outcome = try_select_builtins_enter_scope(&mut vm, &mut exec_scopes, &ids_data, &ap_tracking);
    assert!(outcome.is_none());
    assert_eq!(exec_scopes.data.len(), 1);
    assert!(exec_scopes.data[0].is_empty());
}

#[test]
fn reference_behind_the_hint_is_corrected() {
    let mut vm = machine_with_count_at_ap_minus_one(5);
    let ids_data = ids_with(ap_reference(0, Some(ApTracking { group: 2, offset: 3 })));
    let ap_tracking = ApTracking { group: 2, offset: 4 };
    let mut exec_scopes = ExecutionScopes::new();

    assert!(lookup_resolves(N_SELECTED_BUILTINS, &ids_data, &ap_tracking));
    let outcome = try_select_builtins_enter_scope(&mut vm, &mut exec_scopes, &ids_data, &ap_tracking);
    assert!(matches!(outcome, Some(Ok(()))));
    assert_eq!(exec_scopes.data.len(), 2);
    assert_eq!(exec_scopes.get::<usize>(N_SELECTED_BUILTINS).unwrap(), 5);
}

#[test]
fn reference_of_another_group_is_unknown() {
    let mut vm = machine_with_count_at_ap_minus_one(5);
    let ids_data = ids_with(ap_reference(0, Some(ApTracking { group: 1, offset: 9 })));
    let ap_tracking = ApTracking { group: 2, offset: 4 };
    let mut exec_scopes = ExecutionScopes::new();

    assert!(lookup_resolves(N_SELECTED_BUILTINS, &ids_data, &ap_tracking));
    let outcome = try_select_builtins_enter_scope(&mut vm, &mut exec_scopes, &ids_data, &ap_tracking);
    assert!(matches!(outcome, Some(Err(HintError::UnknownIdentifier(_)))));
    assert_eq!(exec_scopes.data.len(), 1);
}

#[test]
fn frame_reference_is_looked_up_whatever_it_records() {
    let mut vm = VirtualMachine::new(false, false);
    vm.set_fp(1);
    vm.add_memory_segment();
    vm.add_memory_segment();
    vm.insert_value(Relocatable::from((1, 0)), Felt252::from(7)).unwrap();
    let mut reference = HintReference::new_simple(-1);
    reference.ap_tracking_data = Some(ApTracking { group: 0, offset: 8 });
    let ids_data = ids_with(reference);
    let ap_tracking = ApTracking::default();
    let mut exec_scopes = ExecutionScopes::new();

    assert!(lookup_resolves(N_SELECTED_BUILTINS, &ids_data, &ap_tracking));
    let outcome = try_select_builtins_enter_scope(&mut vm, &mut exec_scopes, &ids_data, &ap_tracking);
    assert!(matches!(outcome, Some(Ok(()))));
    assert_eq!(exec_scopes.get::<usize>(N_SELECTED_BUILTINS).unwrap(), 7);
}

#[test]
fn second_offset_from_the_allocation_pointer_counts_too() {
    let mut reference = HintReference::new_simple(-1);
    reference.offset2 = OffsetValue::Reference(Register::AP, 0, false, true);
    reference.ap_tracking_data = Some(ApTracking { group: 0, offset: 1 });
    let ids_data = ids_with(reference);
    assert!(!lookup_resolves(N_SELECTED_BUILTINS, &ids_data, &ApTracking::default()));
    assert!(lookup_resolves(N_SELECTED_BUILTINS, &ids_data, &ApTracking { group: 0, offset: 1 }));
}

#[test]
fn unbound_variable_is_looked_up_and_reported() {
    let mut vm = machine_with_count_at_ap_minus_one(5);
    let ids_data: HashMap<String, HintReference> = HashMap::from([(
        "another".to_string(),
        ap_reference(0, Some(ApTracking { group: 0, offset: 1 })),
    )]);
    let ap_tracking = ApTracking::default();
    let mut exec_scopes = ExecutionScopes::new();

    assert!(lookup_resolves(N_SELECTED_BUILTINS, &ids_data, &ap_tracking));
    assert!(!lookup_resolves("another", &ids_data, &ap_tracking));
    let outcome = try_select_builtins_enter_scope(&mut vm, &mut exec_scopes, &ids_data, &ap_tracking);
    assert!(matches!(outcome, Some(Err(HintError::UnknownIdentifier(_)))));
}

#[test]
fn can_resolve_at_compares_offsets_within_a_group() {
    let hint = ApPosition { group: 3, offset: 10 };
    let ap = OffsetBase::Ap;
    let fp = OffsetBase::Fp;
    assert!(tracking(ap, OffsetBase::Value, Some((3, 10))).can_resolve_at(&hint));
    assert!(tracking(ap, OffsetBase::Value, Some((3, 0))).can_resolve_at(&hint));
    assert!(!tracking(ap, OffsetBase::Value, Some((3, 11))).can_resolve_at(&hint));
    assert!(!tracking(fp, ap, Some((3, 11))).can_resolve_at(&hint));
    assert!(tracking(ap, ap, Some((4, 11))).can_resolve_at(&hint));
    assert!(tracking(fp, OffsetBase::Immediate, Some((3, 11))).can_resolve_at(&hint));
    assert!(tracking(ap, OffsetBase::Value, None).can_resolve_at(&hint));
    assert!(!tracking(OffsetBase::Value, ap, Some((3, usize::MAX))).can_resolve_at(&hint));
}
