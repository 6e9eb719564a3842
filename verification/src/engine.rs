//! The execution engine's types, as far as the library carries them, and the
//! calls into the engine. Nothing in this file is proved: each contract here
//! is a claim about `cairo_vm`, `serde_json` or `std`.

use crate::hints::references::{lookup_is_safe, ApPosition, OffsetBase, ReferenceTracking};
use crate::hints::types::{BootloaderInput, ScopeValue};
use cairo_vm::hint_processor::builtin_hint_processor::hint_utils::{
    get_integer_from_var_name, get_reference_from_var_name,
};
use cairo_vm::hint_processor::hint_processor_definition::HintReference;
use cairo_vm::serde::deserialize_program::{ApTracking, OffsetValue};
use cairo_vm::types::errors::math_errors::MathError;
use cairo_vm::types::errors::program_errors::ProgramError;
use cairo_vm::types::exec_scope::ExecutionScopes;
use cairo_vm::types::instruction::Register;
use cairo_vm::types::program::Program;
use cairo_vm::vm::errors::hint_errors::HintError;
use cairo_vm::vm::runners::cairo_pie::CairoPie;
use cairo_vm::vm::vm_core::VirtualMachine;
use cairo_vm::Felt252;
use std::any::Any;
use std::collections::HashMap;
use vstd::prelude::*;

verus! {

/// `cairo_vm::types::program::Program`: a parsed program, carried opaquely.
#[verifier::external_type_specification]
#[verifier::external_body]
pub struct ExProgram(cairo_vm::types::program::Program);

/// `cairo_vm::types::errors::program_errors::ProgramError`, carried opaquely.
#[verifier::external_type_specification]
#[verifier::external_body]
pub struct ExProgramError(cairo_vm::types::errors::program_errors::ProgramError);

/// `cairo_vm::vm::runners::cairo_pie::CairoPie`: an executed program's packaged
/// trace and memory, carried opaquely.
#[verifier::external_type_specification]
#[verifier::external_body]
pub struct ExCairoPie(cairo_vm::vm::runners::cairo_pie::CairoPie);

/// `std::io::Error`, carried opaquely.
#[verifier::external_type_specification]
#[verifier::external_body]
pub struct ExIoError(std::io::Error);

/// `serde_json::Value`: one value of a program's named inputs, carried opaquely.
#[verifier::external_type_specification]
#[verifier::external_body]
pub struct ExJsonValue(serde_json::Value);

/// `cairo_vm::Felt252`: a field element, carried opaquely.
#[verifier::external_type_specification]
#[verifier::external_body]
pub struct ExFelt252(cairo_vm::Felt252);

/// `cairo_vm::vm::vm_core::VirtualMachine`, carried opaquely.
#[verifier::external_type_specification]
#[verifier::external_body]
pub struct ExVirtualMachine(cairo_vm::vm::vm_core::VirtualMachine);

/// `cairo_vm::types::exec_scope::ExecutionScopes`: the stack of scope frames.
#[verifier::external_type_specification]
#[verifier::external_body]
pub struct ExExecutionScopes(cairo_vm::types::exec_scope::ExecutionScopes);

/// `cairo_vm::hint_processor::hint_processor_definition::HintReference`.
#[verifier::external_type_specification]
#[verifier::external_body]
pub struct ExHintReference(cairo_vm::hint_processor::hint_processor_definition::HintReference);

/// `cairo_vm::serde::deserialize_program::ApTracking`.
#[verifier::external_type_specification]
#[verifier::external_body]
pub struct ExApTracking(cairo_vm::serde::deserialize_program::ApTracking);

/// `cairo_vm::types::layout_name::LayoutName`: the name of a memory layout.
#[verifier::external_type_specification]
#[verifier::external_body]
pub struct ExLayoutName(cairo_vm::types::layout_name::LayoutName);

/// `std::path::PathBuf`: a file path, carried opaquely.
#[verifier::external_type_specification]
#[verifier::external_body]
pub struct ExPathBuf(std::path::PathBuf);

/// `cairo_vm::vm::errors::hint_errors::HintError`, carried opaquely.
#[verifier::external_type_specification]
#[verifier::external_body]
pub struct ExHintError(cairo_vm::vm::errors::hint_errors::HintError);

/// The program that `Program::from_bytes` returns for the given file contents
/// and entry point, or none where it returns an error. Which error that is
/// has no name: where several identifiers are at fault, the one reported
/// depends on the order in which a hash map is walked.
pub uninterp spec fn parsed_program(bytes: Seq<u8>, entrypoint: Option<Seq<char>>) -> Option<
    Program,
>;

/// What `CairoPie::from_bytes` returns for the given archive contents.
/// Unpacking reads nothing but its argument.
pub uninterp spec fn parsed_pie(bytes: Seq<u8>) -> Result<CairoPie, std::io::Error>;

/// What `get_integer_from_var_name` returns for the variable of the given
/// name, with a field element given by its 32 big-endian bytes. The lookup
/// finds the variable's reference in `ids_data` and reads the machine's
/// registers and memory through it: it looks at nothing but its arguments.
pub uninterp spec fn integer_read(
    var_name: Seq<char>,
    vm: VirtualMachine,
    ids_data: Map<String, HintReference>,
    ap_tracking: ApTracking,
) -> Result<[u8; 32], HintError>;

/// What a `HintReference` holds for the correction of the allocation
/// pointer: for each of `offset1` and `offset2` its variant, with the register
/// of a `Reference`, and the group and offset of `ap_tracking_data`.
pub uninterp spec fn reference_tracking(reference: HintReference) -> ReferenceTracking;

/// The fields `group` and `offset` of an `ApTracking`.
pub uninterp spec fn tracking_position(ap_tracking: ApTracking) -> ApPosition;

/// The frames of an `ExecutionScopes`, outermost first. Each frame maps the
/// names bound in it to what they are bound to.
pub uninterp spec fn scope_frames(scopes: ExecutionScopes) -> Seq<Map<Seq<char>, ScopeValue>>;

/// The error that the engine reports for a field element, given by its 32
/// big-endian bytes, that does not fit a `usize`.
pub uninterp spec fn usize_conversion_error(bytes: Seq<u8>) -> HintError;

/// The view of an optional entry point name.
pub open spec fn entrypoint_view(entrypoint: Option<&str>) -> Option<Seq<char>> {
    match entrypoint {
        Some(name) => Some(name@),
        None => None,
    }
}

/// Calls `Program::from_bytes`. Claimed: whether parsing succeeds, and the
/// program where it does, are fixed by these bytes and this entry point, as
/// named by [`parsed_program`]. Nothing is claimed of the error.
#[verifier::external_body]
pub(crate) fn parse_program(bytes: &[u8], entrypoint: Option<&str>) -> (r: Result<
    Program,
    ProgramError,
>)
    ensures
        r is Ok <==> parsed_program(bytes@, entrypoint_view(entrypoint)) is Some,
        r matches Ok(program) ==> parsed_program(bytes@, entrypoint_view(entrypoint)) == Some(
            program,
        ),
{
    Program::from_bytes(bytes, entrypoint)
}

/// Calls `CairoPie::from_bytes`. Claimed: the result is the one that unpacking
/// assigns to these archive bytes, named by [`parsed_pie`].
#[verifier::external_body]
pub(crate) fn parse_pie(bytes: &[u8]) -> (r: Result<CairoPie, std::io::Error>)
    ensures
        r == parsed_pie(bytes@),
{
    CairoPie::from_bytes(bytes)
}

/// Calls `get_reference_from_var_name`, which looks the name up among the
/// keys of `ids_data`. Claimed: a reference that is found is the one bound to
/// the key that spells the name, and none is found only where no key spells it.
#[verifier::external_body]
pub(crate) fn find_reference<'a>(
    var_name: &'a str,
    ids_data: &'a HashMap<String, HintReference>,
) -> (r: Option<&'a HintReference>)
    ensures
        r matches Some(reference) ==> forall|key: String|
            #![trigger ids_data@.contains_key(key)]
            key@ == var_name@ && ids_data@.contains_key(key) ==> ids_data@[key] == *reference,
        r matches Some(reference) ==> exists|key: String|
            #![trigger ids_data@.contains_key(key)]
            key@ == var_name@ && ids_data@.contains_key(key) && ids_data@[key] == *reference,
        r is None ==> forall|key: String|
            #![trigger ids_data@.contains_key(key)]
            key@ == var_name@ ==> !ids_data@.contains_key(key),
{
    get_reference_from_var_name(var_name, ids_data).ok()
}

/// Reads the fields `offset1`, `offset2` and `ap_tracking_data` of a
/// `HintReference`. Claimed: what is handed out is what the reference holds
/// in them, named by [`reference_tracking`].
#[verifier::external_body]
pub(crate) fn tracking_of(reference: &HintReference) -> (r: ReferenceTracking)
    ensures
        r == reference_tracking(*reference),
{
    let first = match reference.offset1 {
        OffsetValue::Immediate(_) => OffsetBase::Immediate,
        OffsetValue::Value(_) => OffsetBase::Value,
        OffsetValue::Reference(Register::AP, ..) => OffsetBase::Ap,
        OffsetValue::Reference(Register::FP, ..) => OffsetBase::Fp,
    };
    let second = match reference.offset2 {
        OffsetValue::Immediate(_) => OffsetBase::Immediate,
        OffsetValue::Value(_) => OffsetBase::Value,
        OffsetValue::Reference(Register::AP, ..) => OffsetBase::Ap,
        OffsetValue::Reference(Register::FP, ..) => OffsetBase::Fp,
    };
    let position = reference.ap_tracking_data.as_ref().map(|t| ApPosition { group: t.group, offset: t.offset });
    ReferenceTracking { first, second, position }
}

/// Reads the fields `group` and `offset` of an `ApTracking`. Claimed: they
/// are handed out as they are, named by [`tracking_position`].
#[verifier::external_body]
pub(crate) fn position_of(ap_tracking: &ApTracking) -> (r: ApPosition)
    ensures
        r == tracking_position(*ap_tracking),
{
    ApPosition { group: ap_tracking.group, offset: ap_tracking.offset }
}

/// Calls `get_integer_from_var_name` and hands the field element out as its 32
/// big-endian bytes (`Felt252::to_bytes_be`). Claimed: the result is the one
/// that the lookup assigns to this name, machine, references and tracking
/// data, named by [`integer_read`]. Left out are the references on which the
/// engine's correction of the allocation pointer is undefined: the lookup
/// subtracts the recorded offset from the hint's without a test.
#[verifier::external_body]
pub(crate) fn read_integer(
    var_name: &str,
    vm: &VirtualMachine,
    ids_data: &HashMap<String, HintReference>,
    ap_tracking: &ApTracking,
) -> (r: Result<[u8; 32], HintError>)
    requires
        lookup_is_safe(var_name@, ids_data@, *ap_tracking),
    ensures
        r == integer_read(var_name@, *vm, ids_data@, *ap_tracking),
{
    Ok(get_integer_from_var_name(var_name, vm, ids_data, ap_tracking)?.to_bytes_be())
}

/// Builds `HintError::Math(MathError::Felt252ToUsizeConversion(..))` around the
/// field element with the given big-endian bytes. Claimed: the error is a
/// function of the bytes, named by [`usize_conversion_error`].
#[verifier::external_body]
pub(crate) fn conversion_error(bytes: &[u8; 32]) -> (r: HintError)
    ensures
        r == usize_conversion_error(bytes@),
{
    let felt = Felt252::from_bytes_be(bytes);
    HintError::Math(MathError::Felt252ToUsizeConversion(Box::new(felt)))
}

/// Calls `ExecutionScopes::enter_scope` with a frame of one binding, `name` to
/// the boxed `count`. Claimed: that frame is pushed innermost and the frames
/// below it stay as they were.
#[verifier::external_body]
pub(crate) fn enter_count_scope(exec_scopes: &mut ExecutionScopes, name: &str, count: usize)
    ensures
        scope_frames(*final(exec_scopes)) == scope_frames(*old(exec_scopes)).push(
            Map::<Seq<char>, ScopeValue>::empty().insert(name@, ScopeValue::Count(count)),
        ),
{
    let value: Box<dyn Any> = Box::new(count);
    exec_scopes.enter_scope(HashMap::from([(name.to_string(), value)]));
}

/// Calls `ExecutionScopes::insert_value` with a bootloader input. Claimed: with
/// no frame at all nothing changes; otherwise the innermost frame binds `name`
/// to the input, and every other binding stays as it was.
#[verifier::external_body]
pub(crate) fn insert_input(exec_scopes: &mut ExecutionScopes, name: &str, input: BootloaderInput)
    ensures
        scope_frames(*old(exec_scopes)).len() == 0 ==> scope_frames(*final(exec_scopes))
            == scope_frames(*old(exec_scopes)),
        scope_frames(*old(exec_scopes)).len() > 0 ==> scope_frames(*final(exec_scopes))
            == scope_frames(*old(exec_scopes)).update(
            scope_frames(*old(exec_scopes)).len() - 1,
            scope_frames(*old(exec_scopes)).last().insert(name@, ScopeValue::Input(input)),
        ),
{
    exec_scopes.insert_value(name, input);
}

} // verus!
