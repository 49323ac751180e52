//! Laws of the transition system, proved once over the specification-level
//! outcome function that every executable operation is proved to implement.

use vstd::prelude::*;

verus! {

use crate::errors::BlogError;
use crate::state::{BlogStateView, well_formed};
use crate::transition::{OpRequest, op_outcome, run_ops, state_after};

/// Law: under any single request the issuance counters never decrease, and
/// a mint whose counter stands at the maximum fails instead of wrapping.
pub proof fn lemma_supply_nondecreasing(s: BlogStateView, op: OpRequest)
    ensures
        state_after(s, op).total_standard >= s.total_standard,
        state_after(s, op).total_premium >= s.total_premium,
        s.total_standard == u64::MAX && (op matches OpRequest::MintStandard { .. })
            ==> op_outcome(s, op) is Err,
        s.total_premium == u64::MAX && (op matches OpRequest::MintPremium { .. }) ==> op_outcome(
            s,
            op,
        ) is Err,
{
}

/// Law: under every sequence of requests the issuance counters are
/// non-decreasing.
pub proof fn lemma_supply_nondecreasing_ops(s: BlogStateView, ops: Seq<OpRequest>)
    ensures
        run_ops(s, ops).total_standard >= s.total_standard,
        run_ops(s, ops).total_premium >= s.total_premium,
    decreases ops.len(),
{
    if ops.len() > 0 {
        lemma_supply_nondecreasing(s, ops[0]);
        lemma_supply_nondecreasing_ops(state_after(s, ops[0]), ops.drop_first());
    }
}

/// Law: the owner identity set at creation is immutable under every request.
pub proof fn lemma_owner_immutable(s: BlogStateView, op: OpRequest)
    ensures
        state_after(s, op).authority == s.authority,
{
}

/// Law: the owner identity is immutable under every sequence of requests.
pub proof fn lemma_owner_immutable_ops(s: BlogStateView, ops: Seq<OpRequest>)
    ensures
        run_ops(s, ops).authority == s.authority,
    decreases ops.len(),
{
    if ops.len() > 0 {
        lemma_owner_immutable(s, ops[0]);
        lemma_owner_immutable_ops(state_after(s, ops[0]), ops.drop_first());
    }
}

/// Law: a strictly positive premium fee stays strictly positive under every
/// request; with creation rejecting a zero fee, the fee is positive after
/// any successful operation.
pub proof fn lemma_fee_stays_positive(s: BlogStateView, op: OpRequest)
    requires
        s.premium_fee > 0,
    ensures
        state_after(s, op).premium_fee > 0,
{
}

/// Law: the record invariant — positive fee, non-empty bounded URI — is
/// preserved by every request.
pub proof fn lemma_well_formed_preserved(s: BlogStateView, op: OpRequest)
    requires
        well_formed(s),
    ensures
        well_formed(state_after(s, op)),
{
}

/// Law: the record invariant is preserved by every sequence of requests.
pub proof fn lemma_well_formed_preserved_ops(s: BlogStateView, ops: Seq<OpRequest>)
    requires
        well_formed(s),
    ensures
        well_formed(run_ops(s, ops)),
    decreases ops.len(),
{
    if ops.len() > 0 {
        lemma_well_formed_preserved(s, ops[0]);
        lemma_well_formed_preserved_ops(state_after(s, ops[0]), ops.drop_first());
    }
}

/// Law: while the record is paused, both mint requests fail with `Paused`,
/// whatever their other inputs.
pub proof fn lemma_paused_blocks_minting(s: BlogStateView, op: OpRequest)
    requires
        s.paused,
        (op matches OpRequest::MintStandard { .. }) || (op matches OpRequest::MintPremium { .. }),
    ensures
        op_outcome(s, op) == Err::<BlogStateView, BlogError>(BlogError::Paused),
{
}

} // verus!
