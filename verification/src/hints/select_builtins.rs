//! The hook that opens the builtin-selection scope.

use crate::engine::{
    conversion_error, enter_count_scope, integer_read, read_integer, scope_frames,
    usize_conversion_error,
};
use crate::hints::references::{lookup_is_safe, lookup_resolves};
use crate::hints::types::ScopeValue;
use crate::hints::vars::N_SELECTED_BUILTINS;
use cairo_vm::hint_processor::hint_processor_definition::HintReference;
use cairo_vm::serde::deserialize_program::ApTracking;
use cairo_vm::types::exec_scope::ExecutionScopes;
use cairo_vm::vm::errors::hint_errors::HintError;
use cairo_vm::vm::vm_core::VirtualMachine;
use std::collections::HashMap;
use vstd::prelude::*;

verus! {

/// The number that `bytes` spell, most significant byte first.
pub open spec fn be_value(bytes: Seq<u8>) -> nat
    decreases bytes.len(),
{
    if bytes.len() == 0 {
        0
    } else {
        be_value(bytes.drop_last()) * 256 + bytes.last() as nat
    }
}

/// A prefix spells no more than the whole.
pub proof fn lemma_be_value_prefix(bytes: Seq<u8>, n: int)
    requires
        0 <= n <= bytes.len(),
    ensures
        be_value(bytes.take(n)) <= be_value(bytes),
    decreases bytes.len(),
{
    if n == bytes.len() {
        assert(bytes.take(n) =~= bytes);
    } else {
        lemma_be_value_prefix(bytes.drop_last(), n);
        assert(bytes.drop_last().take(n) =~= bytes.take(n));
    }
}

/// The frame that the selection scope holds: one binding, the selected count.
pub open spec fn selection_frame(count: usize) -> Map<Seq<char>, ScopeValue> {
    Map::<Seq<char>, ScopeValue>::empty().insert(N_SELECTED_BUILTINS@, ScopeValue::Count(count))
}

/// What entering the selection scope makes of a count as it was read:
/// `after` and `outcome` are the scopes and the result that follow from
/// `before` and `read`.
pub open spec fn selection_entered(
    before: ExecutionScopes,
    after: ExecutionScopes,
    read: Result<[u8; 32], HintError>,
    outcome: Result<(), HintError>,
) -> bool {
    match read {
        Ok(bytes) => if be_value(bytes@) <= usize::MAX {
            &&& outcome is Ok
            &&& scope_frames(after) == scope_frames(before).push(
                selection_frame(be_value(bytes@) as usize),
            )
        } else {
            &&& outcome == Err::<(), HintError>(usize_conversion_error(bytes@))
            &&& after == before
        },
        Err(cause) => {
            &&& outcome == Err::<(), HintError>(cause)
            &&& after == before
        },
    }
}

/// The number spelled by the 32 big-endian bytes of a field element, where
/// it fits a `usize`.
pub fn count_from_be_bytes(bytes: &[u8; 32]) -> (r: Option<usize>)
    ensures
        r is Some <==> be_value(bytes@) <= usize::MAX,
        r matches Some(count) ==> count == be_value(bytes@),
{
    let mut count: usize = 0;
    let mut i: usize = 0;
    proof {
        assert(bytes@.take(0) =~= Seq::<u8>::empty());
    }
    while i < 32
        invariant
            i <= 32,
            bytes@.len() == 32,
            count == be_value(bytes@.take(i as int)),
        decreases 32 - i,
    {
        proof {
            let next = bytes@.take(i + 1);
            assert(next.drop_last() =~= bytes@.take(i as int));
            assert(next.last() == bytes@[i as int]);
            lemma_be_value_prefix(bytes@, i + 1);
        }
        let digit: usize = bytes[i] as usize;
        let shifted: usize = match count.checked_mul(256) {
            Some(shifted) => shifted,
            None => {
                return None;
            },
        };
        count = match shifted.checked_add(digit) {
            Some(sum) => sum,
            None => {
                return None;
            },
        };
        i += 1;
    }
    proof {
        assert(bytes@.take(32) =~= bytes@);
    }
    Some(count)
}

/// Opens the selection scope for a count that was read from the running
/// program, or hands on the error that reading gave.
///
/// A count that fits a `usize` opens one new innermost frame that binds the
/// selection variable to it and nothing else. A count that does not fit is
/// a conversion error, and the scopes stay as they are.
pub fn enter_selection_scope(
    exec_scopes: &mut ExecutionScopes,
    n_selected_builtins: Result<[u8; 32], HintError>,
) -> (r: Result<(), HintError>)
    ensures
        selection_entered(*old(exec_scopes), *final(exec_scopes), n_selected_builtins, r),
{
    match n_selected_builtins {
        Ok(bytes) => {
            match count_from_be_bytes(&bytes) {
                Some(count) => {
                    enter_count_scope(exec_scopes, N_SELECTED_BUILTINS, count);
                    Ok(())
                },
                None => Err(conversion_error(&bytes)),
            }
        },
        Err(cause) => Err(cause),
    }
}

/// Handles the hint `vm_enter_scope({'n_selected_builtins': ids.n_selected_builtins})`:
/// reads the selection count from the running program and opens a scope
/// that holds it.
///
/// The machine is only read. Where the variable holds a count that fits a
/// `usize`, the call succeeds and exactly one frame was pushed, with the
/// selection variable bound to that count as its only binding. Where the
/// count does not fit, or the variable cannot be read, the error says so and
/// the scopes are untouched. No hint is added for later instructions, so
/// there is nothing to return on success.
///
/// The reference of the selection variable must be one that can be resolved
/// at the hint's position; [`try_select_builtins_enter_scope`] tests that.
pub fn select_builtins_enter_scope(
    vm: &mut VirtualMachine,
    exec_scopes: &mut ExecutionScopes,
    ids_data: &HashMap<String, HintReference>,
    ap_tracking: &ApTracking,
) -> (r: Result<(), HintError>)
    requires
        lookup_is_safe(N_SELECTED_BUILTINS@, ids_data@, *ap_tracking),
    ensures
        *final(vm) == *old(vm),
        selection_entered(
            *old(exec_scopes),
            *final(exec_scopes),
            integer_read(N_SELECTED_BUILTINS@, *old(vm), ids_data@, *ap_tracking),
            r,
        ),
{
    let n_selected_builtins = read_integer(N_SELECTED_BUILTINS, vm, ids_data, ap_tracking);
    enter_selection_scope(exec_scopes, n_selected_builtins)
}

/// Handles the same hint for any reference: tests first whether the
/// selection variable can be looked up at the hint's position, and enters
/// the scope only where it can. Where it cannot, nothing is read or changed
/// and there is no outcome.
pub fn try_select_builtins_enter_scope(
    vm: &mut VirtualMachine,
    exec_scopes: &mut ExecutionScopes,
    ids_data: &HashMap<String, HintReference>,
    ap_tracking: &ApTracking,
) -> (r: Option<Result<(), HintError>>)
    ensures
        *final(vm) == *old(vm),
        r is Some <==> lookup_is_safe(N_SELECTED_BUILTINS@, ids_data@, *ap_tracking),
        r matches Some(outcome) ==> selection_entered(
            *old(exec_scopes),
            *final(exec_scopes),
            integer_read(N_SELECTED_BUILTINS@, *old(vm), ids_data@, *ap_tracking),
            outcome,
        ),
        r is None ==> *final(exec_scopes) == *old(exec_scopes),
{
    if lookup_resolves(N_SELECTED_BUILTINS, ids_data, ap_tracking) {
        Some(select_builtins_enter_scope(vm, exec_scopes, ids_data, ap_tracking))
    } else {
        None
    }
}

/// Entering the selection scope adds one frame and leaves every frame below
/// it as it was; the new frame binds the selection variable, and only it.
pub proof fn lemma_selection_scope_is_innermost(
    before: Seq<Map<Seq<char>, ScopeValue>>,
    after: Seq<Map<Seq<char>, ScopeValue>>,
    count: usize,
)
    requires
        after == before.push(selection_frame(count)),
    ensures
        after.len() == before.len() + 1,
        forall|i: int| 0 <= i < before.len() ==> after[i] == before[i],
        after.last().dom() == set![N_SELECTED_BUILTINS@],
        after.last()[N_SELECTED_BUILTINS@] == ScopeValue::Count(count),
        after.drop_last() == before,
{
    assert(after.last().dom() =~= set![N_SELECTED_BUILTINS@]);
    assert(after.drop_last() =~= before);
}

} // verus!
