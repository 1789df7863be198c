//! Vehicles, and the record on each of the service campaigns it has
//! satisfied: a set of campaign identifiers with no duplicates.

use vstd::prelude::*;
use crate::campaign::{ServiceCampaign, ServiceCampaignRepositoryImpl, campaigns_view};
use crate::eligibility::{eligible_campaigns, pending_campaigns, pending_order};
use crate::enums::{CarStatus, FuelType, Transmission};
use crate::error::RepoError;
use crate::keys::{
    fresh_key,
    contains_key,
    copy_ids,
    find_key,
    has_key,
    key_pos,
    lemma_key_pos,
    lemma_unique_push,
    lemma_unique_remove,
    unique_keys,
};
use crate::seqs::lemma_insert_multiset;
use crate::system::{new_id, now_millis};
use crate::text::has_char_count;

verus! {

/// The length every VIN has.
pub const VIN_LENGTH: usize = 17;

/// The earliest model year accepted.
pub const MIN_YEAR: i32 = 1990;

/// The latest model year accepted.
pub const MAX_YEAR: i32 = 2024;

/// A vehicle. The price is in minor currency units (cents).
#[derive(Clone, Debug)]
pub struct Car {
    pub id: u128,
    pub brand_id: u128,
    pub model_id: u128,
    pub year: i32,
    pub price: u64,
    pub mileage: i32,
    pub color: String,
    pub vin: String,
    pub fuel_type: FuelType,
    pub transmission: Transmission,
    pub status: CarStatus,
    /// The campaigns this vehicle has satisfied; no identifier twice.
    pub completed_service_campaigns: Vec<u128>,
    pub created_at: i64,
    pub updated_at: i64,
}

/// A vehicle as a mathematical value.
pub struct CarView {
    pub id: u128,
    pub brand_id: u128,
    pub model_id: u128,
    pub year: i32,
    pub price: u64,
    pub mileage: i32,
    pub color: Seq<char>,
    pub vin: Seq<char>,
    pub fuel_type: FuelType,
    pub transmission: Transmission,
    pub status: CarStatus,
    pub completed_service_campaigns: Seq<u128>,
    pub created_at: i64,
    pub updated_at: i64,
}

impl View for Car {
    type V = CarView;

    open spec fn view(&self) -> CarView {
        CarView {
            id: self.id,
            brand_id: self.brand_id,
            model_id: self.model_id,
            year: self.year,
            price: self.price,
            mileage: self.mileage,
            color: self.color@,
            vin: self.vin@,
            fuel_type: self.fuel_type,
            transmission: self.transmission,
            status: self.status,
            completed_service_campaigns: self.completed_service_campaigns@,
            created_at: self.created_at,
            updated_at: self.updated_at,
        }
    }
}

impl Car {
    /// A field-by-field copy.
    pub fn copy(&self) -> (r: Car)
        ensures
            r@ == self@,
    {
        Car {
            id: self.id,
            brand_id: self.brand_id,
            model_id: self.model_id,
            year: self.year,
            price: self.price,
            mileage: self.mileage,
            color: self.color.clone(),
            vin: self.vin.clone(),
            fuel_type: self.fuel_type,
            transmission: self.transmission,
            status: self.status,
            completed_service_campaigns: copy_ids(&self.completed_service_campaigns),
            created_at: self.created_at,
            updated_at: self.updated_at,
        }
    }
}

/// What a new vehicle is made of. It starts available, with no campaign
/// completed.
#[derive(Clone, Debug)]
pub struct CreateCarRequest {
    pub brand_id: u128,
    pub model_id: u128,
    pub year: i32,
    pub price: u64,
    pub mileage: i32,
    pub color: String,
    pub vin: String,
    pub fuel_type: FuelType,
    pub transmission: Transmission,
}

/// A selection of vehicles by one attribute.
#[derive(Clone, Copy, Debug, PartialEq, Eq, Structural)]
pub enum CarFilter {
    Status(CarStatus),
    Brand(u128),
    Model(u128),
}

/// Whether a vehicle is selected by the filter.
pub open spec fn car_filter_matches(f: CarFilter, c: CarView) -> bool {
    match f {
        CarFilter::Status(s) => c.status == s,
        CarFilter::Brand(b) => c.brand_id == b,
        CarFilter::Model(m) => c.model_id == m,
    }
}

/// The vehicles the filter selects, in store order.
pub open spec fn cars_filtered(s: Seq<CarView>, f: CarFilter) -> Seq<CarView>
    decreases s.len(),
{
    if s.len() == 0 {
        Seq::empty()
    } else if car_filter_matches(f, s.last()) {
        cars_filtered(s.drop_last(), f).push(s.last())
    } else {
        cars_filtered(s.drop_last(), f)
    }
}

/// An edit of a vehicle; each field given replaces the stored one. The
/// completed-campaign set is not among them: only recording, removing and
/// clearing completions change it.
#[derive(Clone, Debug)]
pub struct UpdateCarRequest {
    pub brand_id: Option<u128>,
    pub model_id: Option<u128>,
    pub year: Option<i32>,
    pub price: Option<u64>,
    pub mileage: Option<i32>,
    pub color: Option<String>,
    pub vin: Option<String>,
    pub fuel_type: Option<FuelType>,
    pub transmission: Option<Transmission>,
    pub status: Option<CarStatus>,
}

/// An edit whose year is in range and whose VIN has the right length.
pub open spec fn car_edit_valid(req: UpdateCarRequest) -> bool {
    &&& (req.year.is_some() ==> MIN_YEAR <= req.year.unwrap() <= MAX_YEAR)
    &&& (req.vin.is_some() ==> req.vin.unwrap()@.len() == VIN_LENGTH)
}

/// A vehicle after an edit at `now`.
pub open spec fn edited_car(c: CarView, req: UpdateCarRequest, now: i64) -> CarView {
    CarView {
        id: c.id,
        brand_id: match req.brand_id {
            Some(v) => v,
            None => c.brand_id,
        },
        model_id: match req.model_id {
            Some(v) => v,
            None => c.model_id,
        },
        year: match req.year {
            Some(v) => v,
            None => c.year,
        },
        price: match req.price {
            Some(v) => v,
            None => c.price,
        },
        mileage: match req.mileage {
            Some(v) => v,
            None => c.mileage,
        },
        color: match req.color {
            Some(v) => v@,
            None => c.color,
        },
        vin: match req.vin {
            Some(v) => v@,
            None => c.vin,
        },
        fuel_type: match req.fuel_type {
            Some(v) => v,
            None => c.fuel_type,
        },
        transmission: match req.transmission {
            Some(v) => v,
            None => c.transmission,
        },
        status: match req.status {
            Some(v) => v,
            None => c.status,
        },
        completed_service_campaigns: c.completed_service_campaigns,
        created_at: c.created_at,
        updated_at: now,
    }
}

/// The store and the result after editing vehicle `id` at `now`. A new VIN
/// must not belong to another vehicle.
pub open spec fn car_edit(s: Seq<CarView>, id: u128, now: i64, req: UpdateCarRequest) -> (
    Seq<CarView>,
    Result<CarView, RepoError>,
) {
    if !car_edit_valid(req) {
        (s, Err(RepoError::ValidationFailure))
    } else if !has_key(car_ids(s), id) {
        (s, Err(RepoError::NotFound))
    } else {
        let i = key_pos(car_ids(s), id);
        if req.vin.is_some() && req.vin.unwrap()@ != s[i].vin && has_vin(s, req.vin.unwrap()@) {
            (s, Err(RepoError::Conflict))
        } else {
            let c = edited_car(s[i], req, now);
            (s.update(i, c), Ok(c))
        }
    }
}

/// Applies an edit to a vehicle at `now`.
fn apply_edit(c: Car, req: UpdateCarRequest, now: i64) -> (r: Car)
    ensures
        r@ == edited_car(c@, req, now),
{
    Car {
        id: c.id,
        brand_id: match req.brand_id {
            Some(v) => v,
            None => c.brand_id,
        },
        model_id: match req.model_id {
            Some(v) => v,
            None => c.model_id,
        },
        year: match req.year {
            Some(v) => v,
            None => c.year,
        },
        price: match req.price {
            Some(v) => v,
            None => c.price,
        },
        mileage: match req.mileage {
            Some(v) => v,
            None => c.mileage,
        },
        color: match req.color {
            Some(v) => v,
            None => c.color,
        },
        vin: match req.vin {
            Some(v) => v,
            None => c.vin,
        },
        fuel_type: match req.fuel_type {
            Some(v) => v,
            None => c.fuel_type,
        },
        transmission: match req.transmission {
            Some(v) => v,
            None => c.transmission,
        },
        status: match req.status {
            Some(v) => v,
            None => c.status,
        },
        completed_service_campaigns: c.completed_service_campaigns,
        created_at: c.created_at,
        updated_at: now,
    }
}

/// Every vehicle was created no earlier than each one after it.
pub open spec fn newest_first(s: Seq<CarView>) -> bool {
    forall|i: int, j: int| 0 <= i < j < s.len() ==> s[i].created_at >= s[j].created_at
}

/// The vehicles of `v`, newest first.
pub fn sort_newest_first(v: Vec<Car>) -> (r: Vec<Car>)
    ensures
        newest_first(cars_view(r@)),
        cars_view(r@).to_multiset() == cars_view(v@).to_multiset(),
{
    let mut sorted: Vec<Car> = Vec::new();
    let mut i: usize = 0;
    assert(cars_view(sorted@) =~= cars_view(v@.take(0)));
    while i < v.len()
        invariant
            i <= v@.len(),
            newest_first(cars_view(sorted@)),
            cars_view(sorted@).to_multiset() == cars_view(v@.take(i as int)).to_multiset(),
        decreases v@.len() - i,
    {
        let c = v[i].copy();
        insert_newest_first(&mut sorted, c);
        proof {
            broadcast use vstd::seq_lib::group_to_multiset_ensures;
            assert(cars_view(v@.take(i as int + 1)) =~= cars_view(v@.take(i as int)).push(
                v@[i as int]@,
            ));
        }
        i += 1;
    }
    assert(v@.take(i as int) =~= v@);
    sorted
}

/// Inserts a vehicle after every vehicle created no earlier, keeping the
/// list newest first.
fn insert_newest_first(v: &mut Vec<Car>, x: Car)
    requires
        newest_first(cars_view(old(v)@)),
    ensures
        newest_first(cars_view(final(v)@)),
        cars_view(final(v)@).to_multiset() == cars_view(old(v)@).to_multiset().insert(x@),
{
    let mut k: usize = 0;
    while k < v.len() && v[k].created_at >= x.created_at
        invariant
            k <= v@.len(),
            v@ == old(v)@,
            newest_first(cars_view(v@)),
            forall|j: int| 0 <= j < k ==> v@[j].created_at >= x.created_at,
        decreases v@.len() - k,
    {
        k += 1;
    }
    let ghost before = cars_view(v@);
    let ghost xv = x@;
    v.insert(k, x);
    proof {
        assert(cars_view(v@) =~= before.insert(k as int, xv));
        lemma_insert_multiset(before, k as int, xv);
        let s = cars_view(v@);
        assert forall|i: int, j: int| 0 <= i < j < s.len() implies s[i].created_at
            >= s[j].created_at by {
            if j < k {
                assert(before[i].created_at >= before[j].created_at);
            } else if j == k {
                assert(before[i].created_at >= xv.created_at);
            } else if i < k {
                assert(before[i].created_at >= xv.created_at);
                assert(before[k as int].created_at < xv.created_at);
                assert(before[k as int].created_at >= before[j - 1].created_at);
            } else if i == k {
                assert(before[k as int].created_at < xv.created_at);
                assert(before[k as int].created_at >= before[j - 1].created_at);
            } else {
                assert(before[i - 1].created_at >= before[j - 1].created_at);
            }
        }
    }
}

/// The value of each vehicle.
pub open spec fn cars_view(v: Seq<Car>) -> Seq<CarView> {
    v.map_values(|c: Car| c@)
}

/// The vehicle identifiers, in store order.
pub open spec fn car_ids(s: Seq<CarView>) -> Seq<u128> {
    s.map_values(|c: CarView| c.id)
}

/// Some vehicle has this VIN.
pub open spec fn has_vin(s: Seq<CarView>, vin: Seq<char>) -> bool {
    exists|i: int| 0 <= i < s.len() && s[i].vin == vin
}

/// The store's invariant: identifiers and VINs are unique, and no vehicle's
/// completed set holds an identifier twice.
pub open spec fn fleet_wf(s: Seq<CarView>) -> bool {
    &&& unique_keys(car_ids(s))
    &&& forall|i: int, j: int| 0 <= i < j < s.len() ==> s[i].vin != s[j].vin
    &&& forall|i: int|
        0 <= i < s.len() ==> unique_keys(#[trigger] s[i].completed_service_campaigns)
}

/// The vehicle with this identifier, if any.
pub open spec fn car_by_id(s: Seq<CarView>, id: u128) -> Option<CarView> {
    if has_key(car_ids(s), id) {
        Some(s[key_pos(car_ids(s), id)])
    } else {
        None
    }
}

/// A creation request with a model year in range and a VIN of the right
/// length.
pub open spec fn car_request_valid(req: CreateCarRequest) -> bool {
    MIN_YEAR <= req.year <= MAX_YEAR && req.vin@.len() == VIN_LENGTH
}

/// The vehicle that a creation request makes.
pub open spec fn new_car(id: u128, now: i64, req: CreateCarRequest) -> CarView {
    CarView {
        id,
        brand_id: req.brand_id,
        model_id: req.model_id,
        year: req.year,
        price: req.price,
        mileage: req.mileage,
        color: req.color@,
        vin: req.vin@,
        fuel_type: req.fuel_type,
        transmission: req.transmission,
        status: CarStatus::Available,
        completed_service_campaigns: Seq::empty(),
        created_at: now,
        updated_at: now,
    }
}

/// The store and the result after creating a vehicle under `id` at `now`.
pub open spec fn car_creation(s: Seq<CarView>, id: u128, now: i64, req: CreateCarRequest) -> (
    Seq<CarView>,
    Result<CarView, RepoError>,
) {
    if !car_request_valid(req) {
        (s, Err(RepoError::ValidationFailure))
    } else if has_vin(s, req.vin@) || has_key(car_ids(s), id) {
        (s, Err(RepoError::Conflict))
    } else {
        (s.push(new_car(id, now, req)), Ok(new_car(id, now, req)))
    }
}

/// A vehicle with a new completed set, touched at `now`.
pub open spec fn with_completed(c: CarView, set: Seq<u128>, now: i64) -> CarView {
    CarView { completed_service_campaigns: set, updated_at: now, ..c }
}

/// The store and the result after recording campaign `campaign_id` as
/// completed on vehicle `car_id` at `now`. Where the vehicle is missing, or
/// the campaign is already recorded, nothing changes and the result is
/// `NotFound`: there is nothing to do.
pub open spec fn mark_completion(s: Seq<CarView>, car_id: u128, campaign_id: u128, now: i64) -> (
    Seq<CarView>,
    Result<CarView, RepoError>,
) {
    if !has_key(car_ids(s), car_id) {
        (s, Err(RepoError::NotFound))
    } else {
        let i = key_pos(car_ids(s), car_id);
        let set = s[i].completed_service_campaigns;
        if set.contains(campaign_id) {
            (s, Err(RepoError::NotFound))
        } else {
            let c = with_completed(s[i], set.push(campaign_id), now);
            (s.update(i, c), Ok(c))
        }
    }
}

/// A set without `x`.
pub open spec fn set_without(set: Seq<u128>, x: u128) -> Seq<u128> {
    if has_key(set, x) {
        set.remove(key_pos(set, x))
    } else {
        set
    }
}

/// The store and the result after removing campaign `campaign_id` from the
/// completed set of vehicle `car_id` at `now`. Removing an absent campaign
/// is no error; only a missing vehicle is.
pub open spec fn unmark_completion(s: Seq<CarView>, car_id: u128, campaign_id: u128, now: i64) -> (
    Seq<CarView>,
    Result<CarView, RepoError>,
) {
    if !has_key(car_ids(s), car_id) {
        (s, Err(RepoError::NotFound))
    } else {
        let i = key_pos(car_ids(s), car_id);
        let c = with_completed(
            s[i],
            set_without(s[i].completed_service_campaigns, campaign_id),
            now,
        );
        (s.update(i, c), Ok(c))
    }
}

/// The store and the result after emptying the completed set of vehicle
/// `car_id` at `now`.
pub open spec fn clear_completion(s: Seq<CarView>, car_id: u128, now: i64) -> (
    Seq<CarView>,
    Result<CarView, RepoError>,
) {
    if !has_key(car_ids(s), car_id) {
        (s, Err(RepoError::NotFound))
    } else {
        let i = key_pos(car_ids(s), car_id);
        let c = with_completed(s[i], Seq::empty(), now);
        (s.update(i, c), Ok(c))
    }
}

/// The store and the result after setting the status of vehicle `car_id`
/// at `now`.
pub open spec fn status_change(s: Seq<CarView>, car_id: u128, status: CarStatus, now: i64) -> (
    Seq<CarView>,
    Result<CarView, RepoError>,
) {
    if !has_key(car_ids(s), car_id) {
        (s, Err(RepoError::NotFound))
    } else {
        let i = key_pos(car_ids(s), car_id);
        let c = CarView { status, updated_at: now, ..s[i] };
        (s.update(i, c), Ok(c))
    }
}

/// The store and the result after deleting vehicle `id`.
pub open spec fn car_deletion(s: Seq<CarView>, id: u128) -> (Seq<CarView>, bool) {
    if has_key(car_ids(s), id) {
        (s.remove(key_pos(car_ids(s), id)), true)
    } else {
        (s, false)
    }
}

/// The vehicles whose completed set holds `campaign_id`, in store order.
pub open spec fn cars_with_completed(s: Seq<CarView>, campaign_id: u128) -> Seq<CarView>
    decreases s.len(),
{
    if s.len() == 0 {
        Seq::empty()
    } else if s.last().completed_service_campaigns.contains(campaign_id) {
        cars_with_completed(s.drop_last(), campaign_id).push(s.last())
    } else {
        cars_with_completed(s.drop_last(), campaign_id)
    }
}

/// Replacing a vehicle by one with the same identifier, a VIN that is its
/// own or new, and a completed set without duplicates keeps the store's
/// invariant.
pub proof fn lemma_edit_keeps_wf(s: Seq<CarView>, i: int, c: CarView)
    requires
        fleet_wf(s),
        0 <= i < s.len(),
        c.id == s[i].id,
        c.vin == s[i].vin || !has_vin(s, c.vin),
        unique_keys(c.completed_service_campaigns),
    ensures
        fleet_wf(s.update(i, c)),
        car_ids(s.update(i, c)) == car_ids(s),
{
    let t = s.update(i, c);
    assert(car_ids(t) =~= car_ids(s));
    assert forall|a: int, b: int| 0 <= a < b < t.len() implies t[a].vin != t[b].vin by {
        if a != i && b != i {
            assert(s[a].vin != s[b].vin);
        } else if c.vin == s[i].vin {
            assert(s[a].vin != s[b].vin);
        } else if a == i {
            assert(s[b].vin != c.vin);
        } else {
            assert(s[a].vin != c.vin);
        }
    }
    assert forall|a: int| 0 <= a < t.len() implies unique_keys(
        #[trigger] t[a].completed_service_campaigns,
    ) by {
        if a != i {
            assert(unique_keys(s[a].completed_service_campaigns));
        }
    }
}

/// The vehicle store, held in memory. Each change to a completed set is
/// one step on the stored vehicle, so concurrent edits cannot lose one
/// another.
pub struct CarRepositoryImpl {
    cars: Vec<Car>,
}

impl View for CarRepositoryImpl {
    type V = Seq<CarView>;

    closed spec fn view(&self) -> Seq<CarView> {
        cars_view(self.cars@)
    }
}

impl CarRepositoryImpl {
    pub open spec fn wf(&self) -> bool {
        fleet_wf(self@)
    }

    /// An empty store.
    pub fn new() -> (r: Self)
        ensures
            r.wf(),
            r@ == Seq::<CarView>::empty(),
    {
        let r = CarRepositoryImpl { cars: Vec::new() };
        assert(r@ =~= Seq::<CarView>::empty());
        assert(car_ids(r@) =~= Seq::<u128>::empty());
        r
    }

    /// The position of vehicle `id`.
    fn position(&self, id: u128) -> (r: Option<usize>)
        requires
            self.wf(),
        ensures
            match r {
                Some(i) => i < self@.len() && has_key(car_ids(self@), id) && key_pos(
                    car_ids(self@),
                    id,
                ) == i,
                None => !has_key(car_ids(self@), id),
            },
    {
        let mut i: usize = 0;
        while i < self.cars.len()
            invariant
                i <= self@.len(),
                self@ == cars_view(self.cars@),
                self.cars@.len() == self@.len(),
                self.wf(),
                forall|j: int| 0 <= j < i ==> self@[j].id != id,
            decreases self@.len() - i,
        {
            if self.cars[i].id == id {
                proof {
                    lemma_key_pos(car_ids(self@), id, i as int);
                }
                return Some(i);
            }
            i += 1;
        }
        proof {
            assert forall|j: int| 0 <= j < car_ids(self@).len() implies car_ids(self@)[j]
                != id by {
                assert(self@[j].id != id);
            }
        }
        None
    }

    /// All vehicles, newest first.
    pub fn find_all(&self) -> (r: Vec<Car>)
        ensures
            newest_first(cars_view(r@)),
            cars_view(r@).to_multiset() == self@.to_multiset(),
    {
        sort_newest_first(self.all_in_store_order())
    }

    /// All vehicles, in store order.
    fn all_in_store_order(&self) -> (r: Vec<Car>)
        ensures
            cars_view(r@) == self@,
    {
        let mut out: Vec<Car> = Vec::new();
        let mut i: usize = 0;
        while i < self.cars.len()
            invariant
                i <= self@.len(),
                self@ == cars_view(self.cars@),
                self.cars@.len() == self@.len(),
                cars_view(out@) == self@.take(i as int),
            decreases self@.len() - i,
        {
            let ghost prev = out@;
            out.push(self.cars[i].copy());
            assert(cars_view(out@) =~= cars_view(prev).push(self@[i as int]));
            assert(self@.take(i as int + 1) =~= self@.take(i as int).push(self@[i as int]));
            i += 1;
        }
        assert(self@.take(i as int) =~= self@);
        out
    }

    /// The vehicle with this identifier.
    pub fn find_by_id(&self, id: u128) -> (r: Option<Car>)
        requires
            self.wf(),
        ensures
            match r {
                Some(c) => car_by_id(self@, id) == Some(c@),
                None => car_by_id(self@, id).is_none(),
            },
    {
        match self.position(id) {
            Some(i) => Some(self.cars[i].copy()),
            None => None,
        }
    }

    /// The vehicles the filter selects, newest first.
    pub fn find_by(&self, f: CarFilter) -> (r: Vec<Car>)
        ensures
            newest_first(cars_view(r@)),
            cars_view(r@).to_multiset() == cars_filtered(self@, f).to_multiset(),
    {
        sort_newest_first(self.filtered_in_store_order(f))
    }

    /// The vehicles the filter selects, in store order.
    fn filtered_in_store_order(&self, f: CarFilter) -> (r: Vec<Car>)
        ensures
            cars_view(r@) == cars_filtered(self@, f),
    {
        let mut out: Vec<Car> = Vec::new();
        let mut i: usize = 0;
        while i < self.cars.len()
            invariant
                i <= self@.len(),
                self@ == cars_view(self.cars@),
                self.cars@.len() == self@.len(),
                cars_view(out@) == cars_filtered(self@.take(i as int), f),
            decreases self@.len() - i,
        {
            let c = &self.cars[i];
            let selected = match f {
                CarFilter::Status(s) => c.status == s,
                CarFilter::Brand(b) => c.brand_id == b,
                CarFilter::Model(m) => c.model_id == m,
            };
            let ghost prev = out@;
            assert(self@.take(i as int + 1).drop_last() =~= self@.take(i as int));
            if selected {
                out.push(c.copy());
                assert(cars_view(out@) =~= cars_view(prev).push(self@[i as int]));
            }
            i += 1;
        }
        assert(self@.take(i as int) =~= self@);
        out
    }

    /// The vehicles in a status, newest first.
    pub fn find_by_status(&self, status: CarStatus) -> (r: Vec<Car>)
        ensures
            newest_first(cars_view(r@)),
            cars_view(r@).to_multiset() == cars_filtered(self@, CarFilter::Status(status)).to_multiset(),
    {
        self.find_by(CarFilter::Status(status))
    }

    /// The vehicles of a brand, newest first.
    pub fn find_by_brand_id(&self, brand_id: u128) -> (r: Vec<Car>)
        ensures
            newest_first(cars_view(r@)),
            cars_view(r@).to_multiset() == cars_filtered(self@, CarFilter::Brand(brand_id)).to_multiset(),
    {
        self.find_by(CarFilter::Brand(brand_id))
    }

    /// The vehicles of a model, newest first.
    pub fn find_by_model_id(&self, model_id: u128) -> (r: Vec<Car>)
        ensures
            newest_first(cars_view(r@)),
            cars_view(r@).to_multiset() == cars_filtered(self@, CarFilter::Model(model_id)).to_multiset(),
    {
        self.find_by(CarFilter::Model(model_id))
    }

    /// The vehicle with this VIN.
    pub fn find_by_vin(&self, vin: &str) -> (r: Option<Car>)
        ensures
            match r {
                Some(c) => c@.vin == vin@ && self@.contains(c@),
                None => !has_vin(self@, vin@),
            },
    {
        let key = vin.to_owned();
        let mut i: usize = 0;
        while i < self.cars.len()
            invariant
                i <= self@.len(),
                self@ == cars_view(self.cars@),
                self.cars@.len() == self@.len(),
                key@ == vin@,
                forall|j: int| 0 <= j < i ==> self@[j].vin != vin@,
            decreases self@.len() - i,
        {
            if self.cars[i].vin == key {
                assert(self@[i as int].vin == vin@);
                return Some(self.cars[i].copy());
            }
            i += 1;
        }
        None
    }

    /// Whether some vehicle has this VIN.
    pub fn exists_by_vin(&self, vin: &str) -> (r: bool)
        ensures
            r == has_vin(self@, vin@),
    {
        self.find_by_vin(vin).is_some()
    }

    /// Creates a vehicle under `id` at `now`: available, with no campaign
    /// completed. The VIN must be new.
    pub fn save_at(&mut self, id: u128, now: i64, req: CreateCarRequest) -> (r: Result<
        Car,
        RepoError,
    >)
        requires
            old(self).wf(),
        ensures
            final(self).wf(),
            final(self)@ == car_creation(old(self)@, id, now, req).0,
            match r {
                Ok(c) => car_creation(old(self)@, id, now, req).1 == Ok::<CarView, RepoError>(c@),
                Err(e) => car_creation(old(self)@, id, now, req).1 == Err::<CarView, RepoError>(e),
            },
    {
        if req.year < MIN_YEAR || req.year > MAX_YEAR || !has_char_count(req.vin.as_str(), VIN_LENGTH) {
            return Err(RepoError::ValidationFailure);
        }
        if self.exists_by_vin(req.vin.as_str()) || self.position(id).is_some() {
            return Err(RepoError::Conflict);
        }
        let car = Car {
            id,
            brand_id: req.brand_id,
            model_id: req.model_id,
            year: req.year,
            price: req.price,
            mileage: req.mileage,
            color: req.color,
            vin: req.vin,
            fuel_type: req.fuel_type,
            transmission: req.transmission,
            status: CarStatus::Available,
            completed_service_campaigns: Vec::new(),
            created_at: now,
            updated_at: now,
        };
        let out = car.copy();
        self.cars.push(car);
        proof {
            let s = old(self)@;
            let c = new_car(id, now, req);
            assert(c.completed_service_campaigns =~= out@.completed_service_campaigns);
            assert(self@ =~= s.push(c));
            assert(car_ids(self@) =~= car_ids(s).push(id));
            lemma_unique_push(car_ids(s), id);
            assert forall|a: int, b: int| 0 <= a < b < self@.len() implies self@[a].vin
                != self@[b].vin by {
                if b == s.len() {
                    assert(s[a].vin != req.vin@);
                } else {
                    assert(s[a].vin != s[b].vin);
                }
            }
            assert forall|a: int| 0 <= a < self@.len() implies unique_keys(
                #[trigger] self@[a].completed_service_campaigns,
            ) by {
                if a < s.len() {
                    assert(unique_keys(s[a].completed_service_campaigns));
                }
            }
        }
        Ok(out)
    }

    /// An identifier that no stored record has: `candidate` where it is
    /// free, else the least free one.
    fn fresh_id(&self, candidate: u128) -> (r: u128)
        ensures
            !has_key(car_ids(self@), r),
    {
        let mut keys: Vec<u128> = Vec::new();
        let mut i: usize = 0;
        while i < self.cars.len()
            invariant
                i <= self@.len(),
                self.cars@.len() == self@.len(),
                self@ == cars_view(self.cars@),
                keys@ == car_ids(self@.take(i as int)),
            decreases self@.len() - i,
        {
            keys.push(self.cars[i].id);
            i += 1;
            assert(keys@ =~= car_ids(self@.take(i as int)));
        }
        assert(self@.take(i as int) =~= self@);
        fresh_key(&keys, candidate)
    }

    /// Creates a vehicle under a fresh identifier, now.
    pub fn save(&mut self, req: CreateCarRequest) -> (r: Result<Car, RepoError>)
        requires
            old(self).wf(),
        ensures
            final(self).wf(),
            exists|id: u128, now: i64|
                !has_key(car_ids(old(self)@), id) && {
                    let (s, res) = #[trigger] car_creation(old(self)@, id, now, req);
                    &&& final(self)@ == s
                    &&& match r {
                        Ok(c) => res == Ok::<CarView, RepoError>(c@),
                        Err(e) => res == Err::<CarView, RepoError>(e),
                    }
                },
    {
        let id = self.fresh_id(new_id());
        let now = now_millis();
        self.save_at(id, now, req)
    }

    /// Removes vehicle `id`; true where it existed.
    pub fn delete(&mut self, id: u128) -> (r: bool)
        requires
            old(self).wf(),
        ensures
            final(self).wf(),
            (final(self)@, r) == car_deletion(old(self)@, id),
    {
        match self.position(id) {
            Some(i) => {
                self.cars.remove(i);
                proof {
                    let s = old(self)@;
                    assert(self@ =~= s.remove(i as int));
                    assert(car_ids(self@) =~= car_ids(s).remove(i as int));
                    lemma_unique_remove(car_ids(s), i as int);
                    assert forall|a: int, b: int| 0 <= a < b < self@.len() implies self@[a].vin
                        != self@[b].vin by {
                        let x = if a < i { a } else { a + 1 };
                        let y = if b < i { b } else { b + 1 };
                        assert(s[x].vin != s[y].vin);
                    }
                    assert forall|a: int| 0 <= a < self@.len() implies unique_keys(
                        #[trigger] self@[a].completed_service_campaigns,
                    ) by {
                        let x = if a < i { a } else { a + 1 };
                        assert(unique_keys(s[x].completed_service_campaigns));
                    }
                }
                true
            },
            None => false,
        }
    }

    /// Replaces vehicle `i` with `car`, which keeps its identifier and has
    /// its own VIN or a new one.
    fn replace(&mut self, i: usize, car: Car) -> (r: Car)
        requires
            old(self).wf(),
            i < old(self)@.len(),
            car@.id == old(self)@[i as int].id,
            car@.vin == old(self)@[i as int].vin || !has_vin(old(self)@, car@.vin),
            unique_keys(car@.completed_service_campaigns),
        ensures
            final(self).wf(),
            final(self)@ == old(self)@.update(i as int, car@),
            r@ == car@,
    {
        let out = car.copy();
        self.cars.set(i, car);
        proof {
            assert(self@ =~= old(self)@.update(i as int, out@));
            lemma_edit_keeps_wf(old(self)@, i as int, out@);
        }
        out
    }

    /// Edits vehicle `id` at `now`.
    pub fn update_at(&mut self, id: u128, now: i64, req: UpdateCarRequest) -> (r: Result<
        Car,
        RepoError,
    >)
        requires
            old(self).wf(),
        ensures
            final(self).wf(),
            final(self)@ == car_edit(old(self)@, id, now, req).0,
            match r {
                Ok(c) => car_edit(old(self)@, id, now, req).1 == Ok::<CarView, RepoError>(c@),
                Err(e) => car_edit(old(self)@, id, now, req).1 == Err::<CarView, RepoError>(e),
            },
    {
        let valid = match req.year {
            Some(y) => MIN_YEAR <= y && y <= MAX_YEAR,
            None => true,
        } && match &req.vin {
            Some(v) => has_char_count(v.as_str(), VIN_LENGTH),
            None => true,
        };
        if !valid {
            return Err(RepoError::ValidationFailure);
        }
        match self.position(id) {
            None => Err(RepoError::NotFound),
            Some(i) => {
                match &req.vin {
                    Some(v) => {
                        if *v != self.cars[i].vin && self.exists_by_vin(v.as_str()) {
                            return Err(RepoError::Conflict);
                        }
                    },
                    None => {},
                }
                let c = apply_edit(self.cars[i].copy(), req, now);
                proof {
                    assert(unique_keys(old(self)@[i as int].completed_service_campaigns));
                }
                let out = self.replace(i, c);
                Ok(out)
            },
        }
    }

    /// Edits vehicle `id`, now.
    pub fn update(&mut self, id: u128, req: UpdateCarRequest) -> (r: Result<Car, RepoError>)
        requires
            old(self).wf(),
        ensures
            final(self).wf(),
            exists|now: i64|
                {
                    let (s, res) = #[trigger] car_edit(old(self)@, id, now, req);
                    &&& final(self)@ == s
                    &&& match r {
                        Ok(c) => res == Ok::<CarView, RepoError>(c@),
                        Err(e) => res == Err::<CarView, RepoError>(e),
                    }
                },
    {
        let now = now_millis();
        self.update_at(id, now, req)
    }

    /// Sets the status of vehicle `car_id` at `now`.
    pub fn update_status_at(&mut self, car_id: u128, status: CarStatus, now: i64) -> (r: Result<
        Car,
        RepoError,
    >)
        requires
            old(self).wf(),
        ensures
            final(self).wf(),
            final(self)@ == status_change(old(self)@, car_id, status, now).0,
            match r {
                Ok(c) => status_change(old(self)@, car_id, status, now).1 == Ok::<CarView, RepoError>(c@),
                Err(e) => status_change(old(self)@, car_id, status, now).1 == Err::<CarView, RepoError>(e),
            },
    {
        match self.position(car_id) {
            None => Err(RepoError::NotFound),
            Some(i) => {
                let mut car = self.cars[i].copy();
                car.status = status;
                car.updated_at = now;
                proof {
                    assert(unique_keys(self@[i as int].completed_service_campaigns));
                }
                Ok(self.replace(i, car))
            },
        }
    }

    /// Sets the status of vehicle `car_id`, now.
    pub fn update_status(&mut self, car_id: u128, status: CarStatus) -> (r: Result<Car, RepoError>)
        requires
            old(self).wf(),
        ensures
            final(self).wf(),
            exists|now: i64|
                {
                    let (s, res) = #[trigger] status_change(old(self)@, car_id, status, now);
                    &&& final(self)@ == s
                    &&& match r {
                        Ok(c) => res == Ok::<CarView, RepoError>(c@),
                        Err(e) => res == Err::<CarView, RepoError>(e),
                    }
                },
    {
        let now = now_millis();
        self.update_status_at(car_id, status, now)
    }

    /// Records campaign `campaign_id` as completed on vehicle `car_id` at
    /// `now`, where it is not recorded yet. A missing vehicle and a campaign
    /// already recorded both give `NotFound` and change nothing.
    pub fn add_completed_campaign_at(&mut self, car_id: u128, campaign_id: u128, now: i64) -> (r:
        Result<Car, RepoError>)
        requires
            old(self).wf(),
        ensures
            final(self).wf(),
            final(self)@ == mark_completion(old(self)@, car_id, campaign_id, now).0,
            match r {
                Ok(c) => mark_completion(old(self)@, car_id, campaign_id, now).1 == Ok::<
                    CarView,
                    RepoError,
                >(c@),
                Err(e) => mark_completion(old(self)@, car_id, campaign_id, now).1 == Err::<
                    CarView,
                    RepoError,
                >(e),
            },
    {
        match self.position(car_id) {
            None => Err(RepoError::NotFound),
            Some(i) => {
                if contains_key(&self.cars[i].completed_service_campaigns, campaign_id) {
                    return Err(RepoError::NotFound);
                }
                let mut car = self.cars[i].copy();
                car.completed_service_campaigns.push(campaign_id);
                car.updated_at = now;
                proof {
                    lemma_unique_push(self@[i as int].completed_service_campaigns, campaign_id);
                }
                Ok(self.replace(i, car))
            },
        }
    }

    /// Records campaign `campaign_id` as completed on vehicle `car_id`, now.
    pub fn add_completed_campaign(&mut self, car_id: u128, campaign_id: u128) -> (r: Result<
        Car,
        RepoError,
    >)
        requires
            old(self).wf(),
        ensures
            final(self).wf(),
            exists|now: i64|
                {
                    let (s, res) = #[trigger] mark_completion(old(self)@, car_id, campaign_id, now);
                    &&& final(self)@ == s
                    &&& match r {
                        Ok(c) => res == Ok::<CarView, RepoError>(c@),
                        Err(e) => res == Err::<CarView, RepoError>(e),
                    }
                },
    {
        let now = now_millis();
        self.add_completed_campaign_at(car_id, campaign_id, now)
    }

    /// Removes campaign `campaign_id` from the completed set of vehicle
    /// `car_id` at `now`. Only a missing vehicle is an error.
    pub fn remove_completed_campaign_at(&mut self, car_id: u128, campaign_id: u128, now: i64) -> (r:
        Result<Car, RepoError>)
        requires
            old(self).wf(),
        ensures
            final(self).wf(),
            final(self)@ == unmark_completion(old(self)@, car_id, campaign_id, now).0,
            match r {
                Ok(c) => unmark_completion(old(self)@, car_id, campaign_id, now).1 == Ok::<
                    CarView,
                    RepoError,
                >(c@),
                Err(e) => unmark_completion(old(self)@, car_id, campaign_id, now).1 == Err::<
                    CarView,
                    RepoError,
                >(e),
            },
    {
        match self.position(car_id) {
            None => Err(RepoError::NotFound),
            Some(i) => {
                let mut car = self.cars[i].copy();
                proof {
                    assert(unique_keys(self@[i as int].completed_service_campaigns));
                }
                match find_key(&car.completed_service_campaigns, campaign_id) {
                    Some(k) => {
                        car.completed_service_campaigns.remove(k);
                        proof {
                            lemma_unique_remove(self@[i as int].completed_service_campaigns, k as int);
                        }
                    },
                    None => {},
                }
                car.updated_at = now;
                Ok(self.replace(i, car))
            },
        }
    }

    /// Removes campaign `campaign_id` from the completed set of vehicle
    /// `car_id`, now.
    pub fn remove_completed_campaign(&mut self, car_id: u128, campaign_id: u128) -> (r: Result<
        Car,
        RepoError,
    >)
        requires
            old(self).wf(),
        ensures
            final(self).wf(),
            exists|now: i64|
                {
                    let (s, res) = #[trigger] unmark_completion(old(self)@, car_id, campaign_id, now);
                    &&& final(self)@ == s
                    &&& match r {
                        Ok(c) => res == Ok::<CarView, RepoError>(c@),
                        Err(e) => res == Err::<CarView, RepoError>(e),
                    }
                },
    {
        let now = now_millis();
        self.remove_completed_campaign_at(car_id, campaign_id, now)
    }

    /// Empties the completed set of vehicle `car_id` at `now`.
    pub fn clear_completed_campaigns_at(&mut self, car_id: u128, now: i64) -> (r: Result<
        Car,
        RepoError,
    >)
        requires
            old(self).wf(),
        ensures
            final(self).wf(),
            final(self)@ == clear_completion(old(self)@, car_id, now).0,
            match r {
                Ok(c) => clear_completion(old(self)@, car_id, now).1 == Ok::<CarView, RepoError>(c@),
                Err(e) => clear_completion(old(self)@, car_id, now).1 == Err::<CarView, RepoError>(e),
            },
    {
        match self.position(car_id) {
            None => Err(RepoError::NotFound),
            Some(i) => {
                let mut car = self.cars[i].copy();
                car.completed_service_campaigns = Vec::new();
                car.updated_at = now;
                proof {
                    assert(car@.completed_service_campaigns =~= Seq::<u128>::empty());
                }
                Ok(self.replace(i, car))
            },
        }
    }

    /// Empties the completed set of vehicle `car_id`, now.
    pub fn clear_completed_campaigns(&mut self, car_id: u128) -> (r: Result<Car, RepoError>)
        requires
            old(self).wf(),
        ensures
            final(self).wf(),
            exists|now: i64|
                {
                    let (s, res) = #[trigger] clear_completion(old(self)@, car_id, now);
                    &&& final(self)@ == s
                    &&& match r {
                        Ok(c) => res == Ok::<CarView, RepoError>(c@),
                        Err(e) => res == Err::<CarView, RepoError>(e),
                    }
                },
    {
        let now = now_millis();
        self.clear_completed_campaigns_at(car_id, now)
    }

    /// Every vehicle whose completed set holds `campaign_id`, each once,
    /// newest first.
    pub fn get_cars_by_completed_campaign(&self, campaign_id: u128) -> (r: Vec<Car>)
        ensures
            newest_first(cars_view(r@)),
            cars_view(r@).to_multiset() == cars_with_completed(self@, campaign_id).to_multiset(),
    {
        sort_newest_first(self.completed_in_store_order(campaign_id))
    }

    /// Every vehicle whose completed set holds `campaign_id`, in store order.
    fn completed_in_store_order(&self, campaign_id: u128) -> (r: Vec<Car>)
        ensures
            cars_view(r@) == cars_with_completed(self@, campaign_id),
    {
        let mut out: Vec<Car> = Vec::new();
        let mut i: usize = 0;
        while i < self.cars.len()
            invariant
                i <= self@.len(),
                self@ == cars_view(self.cars@),
                self.cars@.len() == self@.len(),
                cars_view(out@) == cars_with_completed(self@.take(i as int), campaign_id),
            decreases self@.len() - i,
        {
            let ghost prev = out@;
            assert(self@.take(i as int + 1).drop_last() =~= self@.take(i as int));
            if contains_key(&self.cars[i].completed_service_campaigns, campaign_id) {
                out.push(self.cars[i].copy());
                assert(cars_view(out@) =~= cars_view(prev).push(self@[i as int]));
            }
            i += 1;
        }
        assert(self@.take(i as int) =~= self@);
        out
    }

    /// The campaigns vehicle `car_id` still owes, mandatory ones first and
    /// newest first within each group; empty where the vehicle is missing.
    pub fn get_pending_campaigns_for_car(
        &self,
        car_id: u128,
        campaigns: &ServiceCampaignRepositoryImpl,
    ) -> (r: Vec<ServiceCampaign>)
        requires
            self.wf(),
        ensures
            match car_by_id(self@, car_id) {
                Some(car) => {
                    &&& pending_order(campaigns_view(r@))
                    &&& campaigns_view(r@).to_multiset() == eligible_campaigns(
                        car,
                        campaigns@,
                    ).to_multiset()
                },
                None => r@.len() == 0,
            },
    {
        match self.position(car_id) {
            None => Vec::new(),
            Some(i) => pending_campaigns(&self.cars[i], campaigns.as_slice()),
        }
    }
}

} // verus!
