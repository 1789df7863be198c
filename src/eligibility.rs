//! Which service campaigns a vehicle still owes, and in what order they are
//! listed.

use vstd::prelude::*;
use crate::campaign::{CampaignView, ServiceCampaign, ServiceCampaignStatus, campaigns_view};
use crate::car::{Car, CarView};
use crate::keys::contains_key;
use crate::seqs::lemma_insert_multiset;

verus! {

/// The campaign is aimed at this VIN: its target list is empty, which means
/// every VIN, or names the VIN.
pub open spec fn targets(c: CampaignView, vin: Seq<char>) -> bool {
    c.target_vins.len() == 0 || c.target_vins.contains(vin)
}

/// The vehicle owes the campaign: it is active, aimed at the vehicle's VIN,
/// brand and model, and not in the vehicle's completed set.
pub open spec fn eligible(car: CarView, c: CampaignView) -> bool {
    &&& c.status == ServiceCampaignStatus::Active
    &&& targets(c, car.vin)
    &&& c.brand_id == car.brand_id
    &&& c.car_model_id == car.model_id
    &&& !car.completed_service_campaigns.contains(c.id)
}

/// The campaigns the vehicle owes, in catalogue order.
pub open spec fn eligible_campaigns(car: CarView, cs: Seq<CampaignView>) -> Seq<CampaignView>
    decreases cs.len(),
{
    if cs.len() == 0 {
        Seq::empty()
    } else if eligible(car, cs.last()) {
        eligible_campaigns(car, cs.drop_last()).push(cs.last())
    } else {
        eligible_campaigns(car, cs.drop_last())
    }
}

/// `a` may be listed before `b`: a mandatory campaign before one that is
/// not, and within the same group the newer first.
pub open spec fn precedes(a: CampaignView, b: CampaignView) -> bool {
    (a.is_mandatory && !b.is_mandatory) || (a.is_mandatory == b.is_mandatory && a.created_at
        >= b.created_at)
}

/// Every campaign may be listed before each one after it.
pub open spec fn pending_order(s: Seq<CampaignView>) -> bool {
    forall|i: int, j: int| 0 <= i < j < s.len() ==> precedes(s[i], s[j])
}

/// Whether the vehicle owes the campaign.
pub fn is_eligible(car: &Car, c: &ServiceCampaign) -> (r: bool)
    ensures
        r == eligible(car@, c@),
{
    c.status == ServiceCampaignStatus::Active && (c.target_vins.len() == 0 || c.targets_vin(
        &car.vin,
    )) && c.brand_id == car.brand_id && c.car_model_id == car.model_id && !contains_key(
        &car.completed_service_campaigns,
        c.id,
    )
}

/// The campaigns among `campaigns` that the vehicle owes: mandatory ones
/// first, newest first within each group.
pub fn pending_campaigns(car: &Car, campaigns: &[ServiceCampaign]) -> (r: Vec<ServiceCampaign>)
    ensures
        pending_order(campaigns_view(r@)),
        campaigns_view(r@).to_multiset() == eligible_campaigns(
            car@,
            campaigns_view(campaigns@),
        ).to_multiset(),
{
    let ghost cs = campaigns_view(campaigns@);
    let mut out: Vec<ServiceCampaign> = Vec::new();
    let mut i: usize = 0;
    assert(campaigns_view(out@) =~= eligible_campaigns(car@, cs.take(0)));
    while i < campaigns.len()
        invariant
            i <= campaigns@.len(),
            cs == campaigns_view(campaigns@),
            pending_order(campaigns_view(out@)),
            campaigns_view(out@).to_multiset() == eligible_campaigns(
                car@,
                cs.take(i as int),
            ).to_multiset(),
        decreases campaigns@.len() - i,
    {
        proof {
            broadcast use vstd::seq_lib::group_to_multiset_ensures;
            assert(cs.take(i as int + 1).drop_last() =~= cs.take(i as int));
        }
        if is_eligible(car, &campaigns[i]) {
            insert_pending(&mut out, campaigns[i].copy());
        }
        i += 1;
    }
    assert(cs.take(i as int) =~= cs);
    out
}

/// Inserts a campaign after every campaign that may precede it, keeping the
/// list in pending order.
fn insert_pending(v: &mut Vec<ServiceCampaign>, x: ServiceCampaign)
    requires
        pending_order(campaigns_view(old(v)@)),
    ensures
        pending_order(campaigns_view(final(v)@)),
        campaigns_view(final(v)@).to_multiset() == campaigns_view(old(v)@).to_multiset().insert(
            x@,
        ),
{
    let mut k: usize = 0;
    while k < v.len() && (v[k].is_mandatory && !x.is_mandatory || v[k].is_mandatory
        == x.is_mandatory && v[k].created_at >= x.created_at)
        invariant
            k <= v@.len(),
            v@ == old(v)@,
            pending_order(campaigns_view(v@)),
            forall|j: int| 0 <= j < k ==> precedes(v@[j]@, x@),
        decreases v@.len() - k,
    {
        k += 1;
    }
    let ghost before = campaigns_view(v@);
    let ghost xv = x@;
    v.insert(k, x);
    proof {
        assert(campaigns_view(v@) =~= before.insert(k as int, xv));
        lemma_insert_multiset(before, k as int, xv);
        let s = campaigns_view(v@);
        assert forall|i: int, j: int| 0 <= i < j < s.len() implies precedes(s[i], s[j]) by {
            if j < k {
                assert(precedes(before[i], before[j]));
            } else if j == k {
                assert(precedes(before[i], xv));
            } else if i < k {
                assert(precedes(before[i], before[j - 1]));
            } else if i == k {
                assert(!precedes(before[k as int], xv));
                if j - 1 > k {
                    assert(precedes(before[k as int], before[j - 1]));
                }
            } else {
                assert(precedes(before[i - 1], before[j - 1]));
            }
        }
    }
}

} // verus!
