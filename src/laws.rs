//! Properties that span several operations: the stock ledger under any
//! sequence of movements, the completion record, and the eligibility resolver.

use vstd::prelude::*;
use crate::campaign::{CampaignView, ServiceCampaignStatus};
use crate::car::{
    CarView,
    UpdateCarRequest,
    car_edit,
    edited_car,
    lemma_edit_keeps_wf,
    car_by_id,
    car_ids,
    clear_completion,
    fleet_wf,
    status_change,
    mark_completion,
    set_without,
    unmark_completion,
    with_completed,
};
use crate::eligibility::{eligible, eligible_campaigns, pending_order};
use crate::enums::CarStatus;
use crate::error::RepoError;
use crate::warehouse::{
    StockMovementRequest,
    WarehouseItem,
    item_ids,
    item_part_ids,
    item_valid,
    ledger_wf,
    moved_quantity,
    stock_movement,
};
use crate::keys::{has_key, key_pos, lemma_unique_push, lemma_unique_remove, unique_keys};

verus! {

/// Replacing a vehicle by one with the same identifier keeps the list of
/// identifiers.
proof fn lemma_same_ids(s: Seq<CarView>, i: int, c: CarView)
    requires
        0 <= i < s.len(),
        c.id == s[i].id,
    ensures
        car_ids(s.update(i, c)) == car_ids(s),
{
    assert(car_ids(s.update(i, c)) =~= car_ids(s));
}

/// Vehicle `car_id` exists and its completed set holds `campaign_id`.
pub open spec fn has_completed(s: Seq<CarView>, car_id: u128, campaign_id: u128) -> bool {
    match car_by_id(s, car_id) {
        Some(c) => c.completed_service_campaigns.contains(campaign_id),
        None => false,
    }
}

/// Two stores that differ at most in when each vehicle was last touched.
pub open spec fn same_but_touched(a: Seq<CarView>, b: Seq<CarView>) -> bool {
    &&& a.len() == b.len()
    &&& forall|i: int| 0 <= i < a.len() ==> (CarView { updated_at: b[i].updated_at, ..a[i] }) == b[i]
}

/// Recording a campaign as completed twice in a row leaves the store as
/// recording it once: the second call finds nothing to do.
pub proof fn lemma_mark_completed_idempotent(
    s: Seq<CarView>,
    car_id: u128,
    campaign_id: u128,
    t1: i64,
    t2: i64,
)
    requires
        fleet_wf(s),
    ensures
        mark_completion(mark_completion(s, car_id, campaign_id, t1).0, car_id, campaign_id, t2)
            == (mark_completion(s, car_id, campaign_id, t1).0, Err::<CarView, RepoError>(
            RepoError::NotFound,
        )),
{
    if has_key(car_ids(s), car_id) {
        let i = key_pos(car_ids(s), car_id);
        let set = s[i].completed_service_campaigns;
        if !set.contains(campaign_id) {
            let c = with_completed(s[i], set.push(campaign_id), t1);
            lemma_same_ids(s, i, c);
            assert(c.completed_service_campaigns[set.len() as int] == campaign_id);
        }
    }
}

/// Emptying a vehicle's completed set a second time changes nothing but
/// the time the vehicle was last touched.
pub proof fn lemma_clear_completed_twice(s: Seq<CarView>, car_id: u128, t1: i64, t2: i64)
    requires
        fleet_wf(s),
    ensures
        same_but_touched(
            clear_completion(s, car_id, t1).0,
            clear_completion(clear_completion(s, car_id, t1).0, car_id, t2).0,
        ),
{
    if has_key(car_ids(s), car_id) {
        let i = key_pos(car_ids(s), car_id);
        let c = with_completed(s[i], Seq::empty(), t1);
        lemma_same_ids(s, i, c);
    }
}

/// Every change to a completed set keeps the store's invariant, so no
/// sequence of such changes, in any order, puts an identifier in a
/// completed set twice.
pub proof fn lemma_completion_steps_keep_sets(
    s: Seq<CarView>,
    car_id: u128,
    campaign_id: u128,
    now: i64,
)
    requires
        fleet_wf(s),
    ensures
        fleet_wf(mark_completion(s, car_id, campaign_id, now).0),
        fleet_wf(unmark_completion(s, car_id, campaign_id, now).0),
        fleet_wf(clear_completion(s, car_id, now).0),
{
    if has_key(car_ids(s), car_id) {
        let i = key_pos(car_ids(s), car_id);
        let set = s[i].completed_service_campaigns;
        assert(unique_keys(set));
        if !set.contains(campaign_id) {
            lemma_unique_push(set, campaign_id);
            lemma_edit_keeps_wf(s, i, with_completed(s[i], set.push(campaign_id), now));
        }
        if has_key(set, campaign_id) {
            lemma_unique_remove(set, key_pos(set, campaign_id));
        }
        lemma_edit_keeps_wf(s, i, with_completed(s[i], set_without(set, campaign_id), now));
        assert(unique_keys(Seq::<u128>::empty()));
        lemma_edit_keeps_wf(s, i, with_completed(s[i], Seq::empty(), now));
    }
}


/// An element is in a sequence with one more element pushed exactly where it
/// is the pushed one or was there before.
proof fn lemma_push_contains<A>(s: Seq<A>, a: A, x: A)
    ensures
        s.push(a).contains(x) <==> (s.contains(x) || a == x),
{
    if s.contains(x) {
        let k = choose|k: int| 0 <= k < s.len() && s[k] == x;
        assert(s.push(a)[k] == x);
    }
    if a == x {
        assert(s.push(a)[s.len() as int] == x);
    }
    if s.push(a).contains(x) && a != x {
        let k = choose|k: int| 0 <= k < s.push(a).len() && s.push(a)[k] == x;
        assert(s[k] == x);
    }
}

/// Everything the resolver lists is owed by the vehicle, and it lists every
/// campaign of the catalogue that is owed.
pub proof fn lemma_eligible_campaigns_exact(car: CarView, cs: Seq<CampaignView>, x: CampaignView)
    ensures
        eligible_campaigns(car, cs).contains(x) <==> (cs.contains(x) && eligible(car, x)),
    decreases cs.len(),
{
    if cs.len() > 0 {
        let rest = cs.drop_last();
        lemma_eligible_campaigns_exact(car, rest, x);
        assert(cs =~= rest.push(cs.last()));
        lemma_push_contains(rest, cs.last(), x);
        lemma_push_contains(eligible_campaigns(car, rest), cs.last(), x);
    }
}

/// A campaign aimed at no VIN in particular, of the vehicle's brand and
/// model, active, and not completed on the vehicle, is listed as owed,
/// whatever the vehicle's VIN.
pub proof fn lemma_wildcard_campaign_pending(car: CarView, cs: Seq<CampaignView>, k: int)
    requires
        0 <= k < cs.len(),
        cs[k].target_vins.len() == 0,
        cs[k].brand_id == car.brand_id,
        cs[k].car_model_id == car.model_id,
        cs[k].status == ServiceCampaignStatus::Active,
        !car.completed_service_campaigns.contains(cs[k].id),
    ensures
        eligible_campaigns(car, cs).contains(cs[k]),
{
    lemma_eligible_campaigns_exact(car, cs, cs[k]);
}

/// A campaign in a vehicle's completed set is never listed as owed by it.
pub proof fn lemma_completed_not_pending(
    s: Seq<CarView>,
    car_id: u128,
    campaign_id: u128,
    cs: Seq<CampaignView>,
    x: CampaignView,
)
    requires
        has_completed(s, car_id, campaign_id),
        x.id == campaign_id,
    ensures
        !eligible_campaigns(car_by_id(s, car_id).unwrap(), cs).contains(x),
{
    lemma_eligible_campaigns_exact(car_by_id(s, car_id).unwrap(), cs, x);
}

/// Once recording a campaign as completed succeeds, the vehicle's completed
/// set holds it.
pub proof fn lemma_mark_records(s: Seq<CarView>, car_id: u128, campaign_id: u128, now: i64)
    requires
        fleet_wf(s),
        mark_completion(s, car_id, campaign_id, now).1 is Ok,
    ensures
        has_completed(mark_completion(s, car_id, campaign_id, now).0, car_id, campaign_id),
{
    let i = key_pos(car_ids(s), car_id);
    let set = s[i].completed_service_campaigns;
    let c = with_completed(s[i], set.push(campaign_id), now);
    let t = s.update(i, c);
    lemma_same_ids(s, i, c);
    assert(c.completed_service_campaigns[set.len() as int] == campaign_id);
    assert(car_by_id(t, car_id) == Some(c));
}

/// A completed campaign stays recorded on its vehicle through every change
/// to a completed set except removing that campaign from that vehicle or
/// emptying that vehicle's set, and through every change of status and
/// every edit of the vehicle's other fields.
pub proof fn lemma_completion_persists(
    s: Seq<CarView>,
    car_id: u128,
    campaign_id: u128,
    other_car: u128,
    other_campaign: u128,
    now: i64,
)
    requires
        fleet_wf(s),
        has_completed(s, car_id, campaign_id),
    ensures
        has_completed(mark_completion(s, other_car, other_campaign, now).0, car_id, campaign_id),
        (other_car, other_campaign) != (car_id, campaign_id) ==> has_completed(
            unmark_completion(s, other_car, other_campaign, now).0,
            car_id,
            campaign_id,
        ),
        other_car != car_id ==> has_completed(
            clear_completion(s, other_car, now).0,
            car_id,
            campaign_id,
        ),
        forall|st: CarStatus|
            has_completed(#[trigger] status_change(s, other_car, st, now).0, car_id, campaign_id),
        forall|req: UpdateCarRequest|
            has_completed(#[trigger] car_edit(s, other_car, now, req).0, car_id, campaign_id),
{
    let v = key_pos(car_ids(s), car_id);
    if has_key(car_ids(s), other_car) {
        let i = key_pos(car_ids(s), other_car);
        let set = s[i].completed_service_campaigns;
        assert(unique_keys(set));
        let m = with_completed(s[i], set.push(other_campaign), now);
        lemma_same_ids(s, i, m);
        let u = with_completed(s[i], set_without(set, other_campaign), now);
        lemma_same_ids(s, i, u);
        let c = with_completed(s[i], Seq::empty(), now);
        lemma_same_ids(s, i, c);
        assert forall|st: CarStatus|
            has_completed(#[trigger] status_change(s, other_car, st, now).0, car_id, campaign_id) by {
            lemma_same_ids(s, i, CarView { status: st, updated_at: now, ..s[i] });
        }
        assert forall|req: UpdateCarRequest|
            has_completed(#[trigger] car_edit(s, other_car, now, req).0, car_id, campaign_id) by {
            lemma_same_ids(s, i, edited_car(s[i], req, now));
        }
        if i == v {
            let k = choose|k: int| 0 <= k < set.len() && set[k] == campaign_id;
            assert(set.push(other_campaign)[k] == campaign_id);
            if other_campaign != campaign_id && has_key(set, other_campaign) {
                let p = key_pos(set, other_campaign);
                let r = set.remove(p);
                if k < p {
                    assert(r[k] == campaign_id);
                } else {
                    assert(k != p);
                    assert(r[k - 1] == campaign_id);
                }
            }
        }
    }
}

/// Editing a vehicle leaves every completed set as it was: an edit neither
/// records nor removes a completion.
pub proof fn lemma_edit_keeps_completion_sets(
    s: Seq<CarView>,
    car_id: u128,
    now: i64,
    req: UpdateCarRequest,
)
    requires
        fleet_wf(s),
    ensures
        car_edit(s, car_id, now, req).0.len() == s.len(),
        forall|k: int|
            0 <= k < s.len() ==> (#[trigger] car_edit(s, car_id, now, req).0[k]).completed_service_campaigns
                == s[k].completed_service_campaigns,
{
}

/// In the resolver's order, a mandatory campaign comes before one that is
/// not mandatory.
pub proof fn lemma_mandatory_first(s: Seq<CampaignView>, i: int, j: int)
    requires
        pending_order(s),
        0 <= i < s.len(),
        0 <= j < s.len(),
        s[i].is_mandatory,
        !s[j].is_mandatory,
    ensures
        i < j,
{
    if j < i {
        assert(crate::eligibility::precedes(s[j], s[i]));
    }
}


/// No stock movement, accepted or refused, makes a quantity negative or
/// breaks the ledger's invariant; so no sequence of movements, in any order,
/// does.
pub proof fn lemma_movement_keeps_ledger(
    s: Seq<WarehouseItem>,
    part_id: u128,
    req: StockMovementRequest,
    now: i64,
)
    requires
        ledger_wf(s),
    ensures
        ledger_wf(stock_movement(s, part_id, req, now).0),
        forall|i: int|
            0 <= i < stock_movement(s, part_id, req, now).0.len() ==> (#[trigger] stock_movement(
                s,
                part_id,
                req,
                now,
            ).0[i]).quantity >= 0,
{
    if req.quantity >= 1 && has_key(item_part_ids(s), part_id) {
        let i = key_pos(item_part_ids(s), part_id);
        let e = s[i];
        assert(item_valid(e));
        match moved_quantity(e.quantity as int, req) {
            Some(q) => {
                if q <= i32::MAX {
                    let moved = WarehouseItem { quantity: q as i32, updated_at: now, ..e };
                    let t = s.update(i, moved);
                    assert(item_ids(t) =~= item_ids(s));
                    assert(item_part_ids(t) =~= item_part_ids(s));
                    assert forall|k: int| 0 <= k < t.len() implies item_valid(#[trigger] t[k]) by {
                        if k != i {
                            assert(item_valid(s[k]));
                        }
                    }
                }
            },
            None => {},
        }
    }
    let r = stock_movement(s, part_id, req, now).0;
    assert forall|k: int| 0 <= k < r.len() implies (#[trigger] r[k]).quantity >= 0 by {
        assert(item_valid(r[k]));
    }
}

} // verus!
