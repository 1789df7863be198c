//! Purchase offers: a customer's request to buy a vehicle, at most one per
//! customer and vehicle. Prices are in minor currency units (cents).

use vstd::prelude::*;
use crate::car::{CarRepositoryImpl, car_by_id};
use crate::customer::CustomerRepositoryImpl;
use crate::enums::RequestStatus;
use crate::error::RepoError;
use crate::keys::has_key;
use crate::system::{new_id, now_millis};
use crate::table::{record_keys, Record, Table, records_matching, record_by_key, record_insertion, record_removal, record_replacement};

verus! {

#[derive(Clone, Debug)]
pub struct PurchaseRequest {
    pub id: u128,
    pub car_id: u128,
    pub customer_id: u128,
    pub status: RequestStatus,
    pub offer_price: Option<u64>,
    pub notes: Option<String>,
    pub created_at: i64,
    pub updated_at: i64,
}

impl Record for PurchaseRequest {
    type Query = PurchaseRequestQuery;

    open spec fn matches(&self, q: &PurchaseRequestQuery) -> bool {
        match q {
            PurchaseRequestQuery::Customer(c) => self.customer_id == c,
            PurchaseRequestQuery::Car(c) => self.car_id == c,
            PurchaseRequestQuery::Status(st) => self.status == st,
            PurchaseRequestQuery::CarAndCustomer(car, cu) => self.car_id == car && self.customer_id == cu,
        }
    }

    fn matches_query(&self, q: &PurchaseRequestQuery) -> (r: bool) {
        match q {
            PurchaseRequestQuery::Customer(c) => self.customer_id == *c,
            PurchaseRequestQuery::Car(c) => self.car_id == *c,
            PurchaseRequestQuery::Status(st) => self.status == *st,
            PurchaseRequestQuery::CarAndCustomer(car, cu) => self.car_id == *car && self.customer_id == *cu,
        }
    }

    open spec fn key(&self) -> u128 {
        self.id
    }

    open spec fn clashes(&self, other: &PurchaseRequest) -> bool {
        self.car_id == other.car_id && self.customer_id == other.customer_id
    }

    fn id(&self) -> (r: u128) {
        self.id
    }

    fn clashes_with(&self, other: &PurchaseRequest) -> (r: bool) {
        self.car_id == other.car_id && self.customer_id == other.customer_id
    }

    fn copy(&self) -> (r: PurchaseRequest) {
        PurchaseRequest {
            id: self.id,
            car_id: self.car_id,
            customer_id: self.customer_id,
            status: self.status,
            offer_price: self.offer_price,
            notes: self.notes.clone(),
            created_at: self.created_at,
            updated_at: self.updated_at,
        }
    }
}

/// A selection of purchase offers.
#[derive(Clone, Debug)]
pub enum PurchaseRequestQuery {
    Customer(u128),
    Car(u128),
    Status(RequestStatus),
    /// The offer of this customer on this vehicle.
    CarAndCustomer(u128, u128),
}

/// What a new offer is made of. It starts pending.
#[derive(Clone, Debug)]
pub struct CreatePurchaseRequest {
    pub car_id: u128,
    pub customer_id: u128,
    pub offer_price: Option<u64>,
    pub notes: Option<String>,
}

pub open spec fn new_purchase(id: u128, now: i64, req: CreatePurchaseRequest) -> PurchaseRequest {
    PurchaseRequest {
        id,
        car_id: req.car_id,
        customer_id: req.customer_id,
        status: RequestStatus::Pending,
        offer_price: req.offer_price,
        notes: req.notes,
        created_at: now,
        updated_at: now,
    }
}

/// The offers and the result after setting the status of offer `id` at
/// `now`.
pub open spec fn purchase_status_change(
    s: Seq<PurchaseRequest>,
    id: u128,
    status: RequestStatus,
    now: i64,
) -> (Seq<PurchaseRequest>, Result<PurchaseRequest, RepoError>) {
    match record_by_key(s, id) {
        None => (s, Err(RepoError::NotFound)),
        Some(p) => record_replacement(s, PurchaseRequest { status, updated_at: now, ..p }),
    }
}

/// The purchase offers, held in memory.
pub struct PurchaseRepositoryImpl {
    table: Table<PurchaseRequest>,
}

impl View for PurchaseRepositoryImpl {
    type V = Seq<PurchaseRequest>;

    closed spec fn view(&self) -> Seq<PurchaseRequest> {
        self.table@
    }
}

impl PurchaseRepositoryImpl {
    pub closed spec fn wf(&self) -> bool {
        self.table.wf()
    }

    /// No offers.
    pub fn new() -> (r: Self)
        ensures
            r.wf(),
            r@ == Seq::<PurchaseRequest>::empty(),
    {
        PurchaseRepositoryImpl { table: Table::new() }
    }

    /// All offers, in the order they were stored.
    pub fn find_all(&self) -> (r: Vec<PurchaseRequest>)
        ensures
            r@ == self@,
    {
        self.table.find_all()
    }

    /// The offer with this identifier.
    pub fn find_by_id(&self, id: u128) -> (r: Option<PurchaseRequest>)
        requires
            self.wf(),
        ensures
            r == record_by_key(self@, id),
    {
        self.table.find_by_id(id)
    }

    /// Stores a pending offer under `id` at `now`; a customer has at most one
    /// offer on a vehicle.
    pub fn save_at(&mut self, id: u128, now: i64, req: CreatePurchaseRequest) -> (r: Result<
        PurchaseRequest,
        RepoError,
    >)
        requires
            old(self).wf(),
        ensures
            final(self).wf(),
            (final(self)@, r) == record_insertion(old(self)@, new_purchase(id, now, req)),
    {
        self.table.insert(
            PurchaseRequest {
                id,
                car_id: req.car_id,
                customer_id: req.customer_id,
                status: RequestStatus::Pending,
                offer_price: req.offer_price,
                notes: req.notes,
                created_at: now,
                updated_at: now,
            },
        )
    }

    /// Stores a pending offer under a fresh identifier, now.
    pub fn save(&mut self, req: CreatePurchaseRequest) -> (r: Result<PurchaseRequest, RepoError>)
        requires
            old(self).wf(),
        ensures
            final(self).wf(),
            exists|id: u128, now: i64|
                !has_key(record_keys(old(self)@), id) && (final(self)@, r) == #[trigger] record_insertion(
                    old(self)@,
                    new_purchase(id, now, req),
                ),
    {
        let id = self.table.fresh_id(new_id());
        let now = now_millis();
        self.save_at(id, now, req)
    }

    /// Stores a pending offer under `id` at `now`, where the vehicle and the
    /// customer it names exist. A missing vehicle gives `UnknownCar`; else a
    /// missing customer gives `UnknownCustomer`; else a second offer of the
    /// customer on the vehicle gives `Conflict`.
    pub fn save_checked_at(
        &mut self,
        id: u128,
        now: i64,
        req: CreatePurchaseRequest,
        cars: &CarRepositoryImpl,
        customers: &CustomerRepositoryImpl,
    ) -> (r: Result<PurchaseRequest, RepoError>)
        requires
            old(self).wf(),
            cars.wf(),
            customers.wf(),
        ensures
            final(self).wf(),
            car_by_id(cars@, req.car_id).is_none() ==> final(self)@ == old(self)@ && r == Err::<
                PurchaseRequest,
                RepoError,
            >(RepoError::UnknownCar),
            car_by_id(cars@, req.car_id).is_some() && record_by_key(customers@, req.customer_id).is_none()
                ==> final(self)@ == old(self)@ && r == Err::<PurchaseRequest, RepoError>(
                RepoError::UnknownCustomer,
            ),
            car_by_id(cars@, req.car_id).is_some() && record_by_key(customers@, req.customer_id).is_some()
                ==> (final(self)@, r) == record_insertion(old(self)@, new_purchase(id, now, req)),
    {
        if cars.find_by_id(req.car_id).is_none() {
            return Err(RepoError::UnknownCar);
        }
        if customers.find_by_id(req.customer_id).is_none() {
            return Err(RepoError::UnknownCustomer);
        }
        self.save_at(id, now, req)
    }

    /// Stores a pending offer under a fresh identifier, now, where the vehicle
    /// and the customer it names exist.
    pub fn save_checked(
        &mut self,
        req: CreatePurchaseRequest,
        cars: &CarRepositoryImpl,
        customers: &CustomerRepositoryImpl,
    ) -> (r: Result<PurchaseRequest, RepoError>)
        requires
            old(self).wf(),
            cars.wf(),
            customers.wf(),
        ensures
            final(self).wf(),
            car_by_id(cars@, req.car_id).is_none() ==> final(self)@ == old(self)@ && r == Err::<
                PurchaseRequest,
                RepoError,
            >(RepoError::UnknownCar),
            car_by_id(cars@, req.car_id).is_some() && record_by_key(customers@, req.customer_id).is_none()
                ==> final(self)@ == old(self)@ && r == Err::<PurchaseRequest, RepoError>(
                RepoError::UnknownCustomer,
            ),
            car_by_id(cars@, req.car_id).is_some() && record_by_key(customers@, req.customer_id).is_some()
                ==> exists|id: u128, now: i64|
                !has_key(record_keys(old(self)@), id) && (final(self)@, r) == #[trigger] record_insertion(old(self)@, new_purchase(id, now, req)),
    {
        let id = self.table.fresh_id(new_id());
        let now = now_millis();
        self.save_checked_at(id, now, req, cars, customers)
    }

    /// Sets the status of offer `id` at `now`.
    pub fn update_status_at(&mut self, id: u128, status: RequestStatus, now: i64) -> (r: Result<
        PurchaseRequest,
        RepoError,
    >)
        requires
            old(self).wf(),
        ensures
            final(self).wf(),
            (final(self)@, r) == purchase_status_change(old(self)@, id, status, now),
    {
        match self.table.find_by_id(id) {
            None => Err(RepoError::NotFound),
            Some(p) => {
                let mut q = p.copy();
                q.status = status;
                q.updated_at = now;
                self.table.replace(q)
            },
        }
    }

    /// A customer's offers.
    pub fn find_by_customer_id(&self, customer_id: u128) -> (r: Vec<PurchaseRequest>)
        ensures
            r@ == records_matching(self@, PurchaseRequestQuery::Customer(customer_id)),
    {
        self.table.find_matching(&PurchaseRequestQuery::Customer(customer_id))
    }

    /// The offers on a vehicle.
    pub fn find_by_car_id(&self, car_id: u128) -> (r: Vec<PurchaseRequest>)
        ensures
            r@ == records_matching(self@, PurchaseRequestQuery::Car(car_id)),
    {
        self.table.find_matching(&PurchaseRequestQuery::Car(car_id))
    }

    /// The offers in a status.
    pub fn find_by_status(&self, status: RequestStatus) -> (r: Vec<PurchaseRequest>)
        ensures
            r@ == records_matching(self@, PurchaseRequestQuery::Status(status)),
    {
        self.table.find_matching(&PurchaseRequestQuery::Status(status))
    }

    /// Whether the customer has an offer on the vehicle.
    pub fn exists_by_car_and_customer(&self, car_id: u128, customer_id: u128) -> (r: bool)
        ensures
            r == (records_matching(self@, PurchaseRequestQuery::CarAndCustomer(car_id, customer_id)).len() > 0),
    {
        self.table.any_matching(&PurchaseRequestQuery::CarAndCustomer(car_id, customer_id))
    }

    /// Sets the status of offer `id`, now.
    pub fn update_status(&mut self, id: u128, status: RequestStatus) -> (r: Result<PurchaseRequest, RepoError>)
        requires
            old(self).wf(),
        ensures
            final(self).wf(),
            exists|now: i64|
                (final(self)@, r) == #[trigger] purchase_status_change(old(self)@, id, status, now),
    {
        let now = now_millis();
        self.update_status_at(id, status, now)
    }

    /// Removes offer `id`; true where it existed.
    pub fn delete(&mut self, id: u128) -> (r: bool)
        requires
            old(self).wf(),
        ensures
            final(self).wf(),
            (final(self)@, r) == record_removal(old(self)@, id),
    {
        self.table.remove(id)
    }
}

} // verus!
