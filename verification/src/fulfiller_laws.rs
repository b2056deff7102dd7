use vstd::prelude::*;

use crate::fulfiller::{
    proof_of_delivery, spec_clear_customs, spec_dispute, spec_finalize_delivery, spec_new,
    spec_start_offloading, FulfillerErrorView, FulfillmentStatus, FulfillmentView,
};

verus! {

/// Where the proof of delivery stands in each stage: absent before completion,
/// the proof of the record's own trade once completed, either way once disputed.
pub open spec fn consistent(r: FulfillmentView) -> bool {
    match r.status {
        FulfillmentStatus::Pending => r.verification_hash is None,
        FulfillmentStatus::Offloading => r.verification_hash is None,
        FulfillmentStatus::CustomsCleared => r.verification_hash is None,
        FulfillmentStatus::Completed => r.verification_hash == Some(proof_of_delivery(r.trade_id)),
        FulfillmentStatus::Disputed => true,
    }
}

/// The position of a stage on the way to completion (disputes stand apart).
pub open spec fn stage(s: FulfillmentStatus) -> int {
    match s {
        FulfillmentStatus::Pending => 0,
        FulfillmentStatus::Offloading => 1,
        FulfillmentStatus::CustomsCleared => 2,
        FulfillmentStatus::Completed => 3,
        FulfillmentStatus::Disputed => 4,
    }
}

/// `a` and `b` belong to the same trade, carrier and customs authority.
pub open spec fn same_parties(a: FulfillmentView, b: FulfillmentView) -> bool {
    &&& a.trade_id == b.trade_id
    &&& a.carrier_handle == b.carrier_handle
    &&& a.customs_handle == b.customs_handle
}

/// A new record is consistent, and every operation keeps a record consistent.
pub proof fn law_consistency_is_kept(r: FulfillmentView, authority: Seq<char>, trade_id: Seq<char>, carrier: Seq<char>, customs: Seq<char>)
    ensures
        consistent(spec_new(trade_id, carrier, customs)),
        consistent(r) ==> consistent(spec_start_offloading(r).0),
        consistent(r) ==> consistent(spec_clear_customs(r, authority).0),
        consistent(r) ==> consistent(spec_finalize_delivery(r).0),
        consistent(r) ==> consistent(spec_dispute(r)),
{
}

/// An operation that fails leaves the record as it was.
pub proof fn law_failure_changes_nothing(r: FulfillmentView, authority: Seq<char>)
    ensures
        spec_start_offloading(r).1 is Err ==> spec_start_offloading(r).0 == r,
        spec_clear_customs(r, authority).1 is Err ==> spec_clear_customs(r, authority).0 == r,
        spec_finalize_delivery(r).1 is Err ==> spec_finalize_delivery(r).0 == r,
{
}

/// No operation changes the trade, the carrier or the customs authority of a record.
pub proof fn law_parties_never_change(r: FulfillmentView, authority: Seq<char>)
    ensures
        same_parties(r, spec_start_offloading(r).0),
        same_parties(r, spec_clear_customs(r, authority).0),
        same_parties(r, spec_finalize_delivery(r).0),
        same_parties(r, spec_dispute(r)),
{
}

/// Each stage is left only for the next one: a transition succeeds exactly from
/// the stage before its target, and moves the record one stage on.
pub proof fn law_one_stage_at_a_time(r: FulfillmentView, authority: Seq<char>)
    ensures
        spec_start_offloading(r).1 is Ok <==> r.status == FulfillmentStatus::Pending,
        spec_clear_customs(r, authority).1 is Ok <==> (r.status == FulfillmentStatus::Offloading
            && authority == r.customs_handle),
        spec_finalize_delivery(r).1 is Ok <==> r.status == FulfillmentStatus::CustomsCleared,
        spec_start_offloading(r).1 is Ok ==> stage(spec_start_offloading(r).0.status) == stage(r.status) + 1,
        spec_clear_customs(r, authority).1 is Ok ==> stage(spec_clear_customs(r, authority).0.status) == stage(r.status) + 1,
        spec_finalize_delivery(r).1 is Ok ==> stage(spec_finalize_delivery(r).0.status) == stage(r.status) + 1,
{
}

/// A disputed record stays disputed, and a completed one is left only by a dispute.
pub proof fn law_final_stages(r: FulfillmentView, authority: Seq<char>)
    ensures
        r.status == FulfillmentStatus::Disputed ==> {
            &&& spec_start_offloading(r).0.status == FulfillmentStatus::Disputed
            &&& spec_clear_customs(r, authority).0.status == FulfillmentStatus::Disputed
            &&& spec_finalize_delivery(r).0.status == FulfillmentStatus::Disputed
            &&& spec_dispute(r).status == FulfillmentStatus::Disputed
        },
        r.status == FulfillmentStatus::Completed ==> {
            &&& spec_start_offloading(r).0 == r
            &&& spec_clear_customs(r, authority).0 == r
            &&& spec_finalize_delivery(r).0 == r
        },
{
}

/// Offloading, clearing customs with the record's own authority and finalizing,
/// in this order, complete any new record, and the proof of delivery names its trade.
pub proof fn law_happy_path(trade_id: Seq<char>, carrier: Seq<char>, customs: Seq<char>)
    ensures
        ({
            let r0 = spec_new(trade_id, carrier, customs);
            let (r1, o1) = spec_start_offloading(r0);
            let (r2, o2) = spec_clear_customs(r1, customs);
            let (r3, o3) = spec_finalize_delivery(r2);
            &&& o1 is Ok && o2 is Ok
            &&& o3 == Ok::<Seq<char>, FulfillerErrorView>(proof_of_delivery(trade_id))
            &&& r3.status == FulfillmentStatus::Completed
            &&& r3.verification_hash == Some(proof_of_delivery(trade_id))
        }),
{
}


/// A new record holds the trade, carrier and customs authority it was given,
/// is pending, and has no proof of delivery.
pub proof fn law_new_keeps_its_arguments(trade_id: Seq<char>, carrier: Seq<char>, customs: Seq<char>)
    ensures
        spec_new(trade_id, carrier, customs).trade_id == trade_id,
        spec_new(trade_id, carrier, customs).carrier_handle == carrier,
        spec_new(trade_id, carrier, customs).customs_handle == customs,
        spec_new(trade_id, carrier, customs).status == FulfillmentStatus::Pending,
        spec_new(trade_id, carrier, customs).verification_hash is None,
{
}

/// A dispute marks any record disputed, from every stage, and changes nothing else.
pub proof fn law_dispute_always_disputes(r: FulfillmentView)
    ensures
        spec_dispute(r).status == FulfillmentStatus::Disputed,
        spec_dispute(r).trade_id == r.trade_id,
        spec_dispute(r).carrier_handle == r.carrier_handle,
        spec_dispute(r).customs_handle == r.customs_handle,
        spec_dispute(r).verification_hash == r.verification_hash,
{
}

/// The proof of delivery is `proof_of_delivery_` followed by the whole trade id,
/// so it ends with the trade id and different trades get different proofs.
pub proof fn law_proof_names_whole_trade(t: Seq<char>, u: Seq<char>)
    ensures
        proof_of_delivery(t) == "proof_of_delivery_"@ + t,
        proof_of_delivery(t).len() == 18 + t.len(),
        proof_of_delivery(t).subrange(18, proof_of_delivery(t).len() as int) == t,
        t != u ==> proof_of_delivery(t) != proof_of_delivery(u),
{
    reveal_strlit("proof_of_delivery_");
    assert(("proof_of_delivery_"@ + t).subrange(18, 18 + t.len() as int) =~= t);
    if t != u {
        assert(("proof_of_delivery_"@ + u).subrange(18, 18 + u.len() as int) =~= u);
    }
}

/// A successful finalization returns `proof_of_delivery_` followed by the
/// record's trade id, stores that same text as the verification hash, marks
/// the record completed, and keeps its parties.
pub proof fn law_finalize_result(r: FulfillmentView)
    ensures
        spec_finalize_delivery(r).1 is Ok ==> {
            let (r2, o) = spec_finalize_delivery(r);
            &&& o == Ok::<Seq<char>, FulfillerErrorView>("proof_of_delivery_"@ + r.trade_id)
            &&& r2.verification_hash == Some("proof_of_delivery_"@ + r.trade_id)
            &&& r2.status == FulfillmentStatus::Completed
            &&& r2.trade_id == r.trade_id
            &&& r2.carrier_handle == r.carrier_handle
            &&& r2.customs_handle == r.customs_handle
        },
        spec_finalize_delivery(r).1 is Err ==> spec_finalize_delivery(r).1 == Err::<Seq<char>, FulfillerErrorView>(
            FulfillerErrorView::InvalidTransition(r.status, FulfillmentStatus::Completed)),
{
}

/// Offloading and clearing customs set exactly the next stage and nothing else;
/// refusals name the current stage and the target, or the record's own authority.
pub proof fn law_transition_results(r: FulfillmentView, authority: Seq<char>)
    ensures
        spec_start_offloading(r).1 is Ok ==> {
            let r2 = spec_start_offloading(r).0;
            &&& r2.status == FulfillmentStatus::Offloading
            &&& r2.trade_id == r.trade_id && r2.carrier_handle == r.carrier_handle
            &&& r2.customs_handle == r.customs_handle && r2.verification_hash == r.verification_hash
        },
        r.status != FulfillmentStatus::Pending ==> spec_start_offloading(r).1 == Err::<(), FulfillerErrorView>(
            FulfillerErrorView::InvalidTransition(r.status, FulfillmentStatus::Offloading)),
        spec_clear_customs(r, authority).1 is Ok ==> {
            let r2 = spec_clear_customs(r, authority).0;
            &&& r2.status == FulfillmentStatus::CustomsCleared
            &&& r2.trade_id == r.trade_id && r2.carrier_handle == r.carrier_handle
            &&& r2.customs_handle == r.customs_handle && r2.verification_hash == r.verification_hash
        },
        r.status != FulfillmentStatus::Offloading ==> spec_clear_customs(r, authority).1 == Err::<(), FulfillerErrorView>(
            FulfillerErrorView::InvalidTransition(r.status, FulfillmentStatus::CustomsCleared)),
        (r.status == FulfillmentStatus::Offloading && authority != r.customs_handle) ==> spec_clear_customs(r, authority).1
            == Err::<(), FulfillerErrorView>(FulfillerErrorView::UnauthorizedAuthority(r.customs_handle)),
{
}

} // verus!
