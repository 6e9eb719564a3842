//! What the engine reads of a variable's reference before it resolves it,
//! and on which references that comes to an address at all.

use crate::engine::{find_reference, position_of, reference_tracking, tracking_of, tracking_position};
use cairo_vm::hint_processor::hint_processor_definition::HintReference;
use cairo_vm::serde::deserialize_program::ApTracking;
use std::collections::HashMap;
use vstd::prelude::*;

verus! {

/// What one of the two offsets of a reference starts from.
#[derive(Debug, PartialEq, Eq, Clone, Copy)]
pub enum OffsetBase {
    /// A field element written into the reference.
    Immediate,
    /// A small integer written into the reference.
    Value,
    /// The allocation pointer.
    Ap,
    /// The frame pointer.
    Fp,
}

/// A point in the tracking of the allocation pointer: the group, and the
/// offset within the group.
#[derive(Debug, PartialEq, Eq, Clone, Copy)]
pub struct ApPosition {
    pub group: usize,
    pub offset: usize,
}

/// The part of a reference that decides how the allocation pointer is
/// corrected when the reference is resolved.
#[derive(Debug, PartialEq, Eq, Clone, Copy)]
pub struct ReferenceTracking {
    /// What the first offset starts from.
    pub first: OffsetBase,
    /// What the second offset starts from.
    pub second: OffsetBase,
    /// The position recorded with the reference, if any.
    pub position: Option<ApPosition>,
}

impl ReferenceTracking {
    /// One of the two offsets starts from the allocation pointer.
    pub open spec fn reads_ap(self) -> bool {
        self.first is Ap || self.second is Ap
    }

    /// The reference can be resolved by a hint at position `hint`. An offset
    /// from the allocation pointer is corrected by the distance from the
    /// recorded position to the hint's, where both are of one group; that
    /// distance exists only where the hint is not behind the reference.
    pub open spec fn resolves_at(self, hint: ApPosition) -> bool {
        match self.position {
            Some(recorded) => self.reads_ap() && recorded.group == hint.group ==> recorded.offset
                <= hint.offset,
            None => true,
        }
    }

    /// Whether the reference can be resolved by a hint at position `hint`.
    pub fn can_resolve_at(&self, hint: &ApPosition) -> (r: bool)
        ensures
            r == self.resolves_at(*hint),
    {
        let reads_ap = match self.first {
            OffsetBase::Ap => true,
            _ => match self.second {
                OffsetBase::Ap => true,
                _ => false,
            },
        };
        match self.position {
            Some(recorded) => !(reads_ap && recorded.group == hint.group) || recorded.offset
                <= hint.offset,
            None => true,
        }
    }
}

/// The variable `var_name` can be looked up by a hint with tracking data
/// `ap_tracking`: it has no reference in `ids_data`, or one that can be
/// resolved at the hint's position.
pub open spec fn lookup_is_safe(
    var_name: Seq<char>,
    ids_data: Map<String, HintReference>,
    ap_tracking: ApTracking,
) -> bool {
    forall|key: String|
        #![trigger ids_data.contains_key(key)]
        key@ == var_name && ids_data.contains_key(key) ==> reference_tracking(
            ids_data[key],
        ).resolves_at(tracking_position(ap_tracking))
}

/// Whether the variable `var_name` can be looked up by a hint with tracking
/// data `ap_tracking`.
pub fn lookup_resolves(
    var_name: &str,
    ids_data: &HashMap<String, HintReference>,
    ap_tracking: &ApTracking,
) -> (r: bool)
    ensures
        r == lookup_is_safe(var_name@, ids_data@, *ap_tracking),
{
    match find_reference(var_name, ids_data) {
        Some(reference) => {
            let tracking = tracking_of(reference);
            let hint = position_of(ap_tracking);
            tracking.can_resolve_at(&hint)
        },
        None => true,
    }
}

} // verus!
