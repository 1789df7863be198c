//! Customers: names of at least two characters and an e-mail address that
//! no other customer has.

use vstd::prelude::*;
use crate::text::has_char_count_at_least;
use crate::error::RepoError;
use crate::keys::has_key;
use crate::text::{contains_ignoring_case, contains_sub, lower_of};
use crate::system::{new_id, now_millis};
use crate::table::{
    record_keys,
    Record,
    Table,
    records_matching,
    record_by_key,
    record_insertion,
    record_removal,
    record_replacement,
};

verus! {

/// The shortest first or last name accepted.
pub const MIN_NAME_LENGTH: usize = 2;

#[derive(Clone, Debug)]
pub struct Customer {
    pub id: u128,
    pub first_name: String,
    pub last_name: String,
    pub email: String,
    pub phone: String,
    pub created_at: i64,
}

impl Record for Customer {
    type Query = CustomerQuery;

    open spec fn matches(&self, q: &CustomerQuery) -> bool {
        match q {
            CustomerQuery::Email(e) => self.email@ == e@,
            CustomerQuery::NameLike(f, l) => contains_sub(lower_of(self.first_name@), lower_of(f@))
                && contains_sub(lower_of(self.last_name@), lower_of(l@)),
        }
    }

    fn matches_query(&self, q: &CustomerQuery) -> (r: bool) {
        match q {
            CustomerQuery::Email(e) => self.email == *e,
            CustomerQuery::NameLike(f, l) => contains_ignoring_case(
                self.first_name.as_str(),
                f.as_str(),
            ) && contains_ignoring_case(self.last_name.as_str(), l.as_str()),
        }
    }

    open spec fn key(&self) -> u128 {
        self.id
    }

    open spec fn clashes(&self, other: &Customer) -> bool {
        self.email@ == other.email@
    }

    fn id(&self) -> (r: u128) {
        self.id
    }

    fn clashes_with(&self, other: &Customer) -> (r: bool) {
        self.email == other.email
    }

    fn copy(&self) -> (r: Customer) {
        Customer {
            id: self.id,
            first_name: self.first_name.clone(),
            last_name: self.last_name.clone(),
            email: self.email.clone(),
            phone: self.phone.clone(),
            created_at: self.created_at,
        }
    }
}

/// A selection of customers.
#[derive(Clone, Debug)]
pub enum CustomerQuery {
    /// Exactly this e-mail address.
    Email(String),
    /// First and last names that contain these texts, ignoring letter case.
    NameLike(String, String),
}

/// What a new customer is made of.
#[derive(Clone, Debug)]
pub struct CreateCustomerRequest {
    pub first_name: String,
    pub last_name: String,
    pub email: String,
    pub phone: String,
}

pub open spec fn new_customer(id: u128, now: i64, req: CreateCustomerRequest) -> Customer {
    Customer {
        id,
        first_name: req.first_name,
        last_name: req.last_name,
        email: req.email,
        phone: req.phone,
        created_at: now,
    }
}

/// The catalogue and the result after creating a customer under `id` at
/// `now`.
pub open spec fn customer_creation(
    s: Seq<Customer>,
    id: u128,
    now: i64,
    req: CreateCustomerRequest,
) -> (Seq<Customer>, Result<Customer, RepoError>) {
    if req.first_name@.len() < MIN_NAME_LENGTH || req.last_name@.len() < MIN_NAME_LENGTH {
        (s, Err(RepoError::ValidationFailure))
    } else {
        record_insertion(s, new_customer(id, now, req))
    }
}

/// The catalogue and the result after replacing the fields of customer
/// `id` with those of `req`; the creation time stays.
pub open spec fn customer_edit(s: Seq<Customer>, id: u128, req: CreateCustomerRequest) -> (
    Seq<Customer>,
    Result<Customer, RepoError>,
) {
    if req.first_name@.len() < MIN_NAME_LENGTH || req.last_name@.len() < MIN_NAME_LENGTH {
        (s, Err(RepoError::ValidationFailure))
    } else {
        match record_by_key(s, id) {
            None => (s, Err(RepoError::NotFound)),
            Some(c) => record_replacement(s, new_customer(id, c.created_at, req)),
        }
    }
}

/// The customer catalogue, held in memory.
pub struct CustomerRepositoryImpl {
    table: Table<Customer>,
}

impl View for CustomerRepositoryImpl {
    type V = Seq<Customer>;

    closed spec fn view(&self) -> Seq<Customer> {
        self.table@
    }
}

impl CustomerRepositoryImpl {
    pub closed spec fn wf(&self) -> bool {
        self.table.wf()
    }

    /// An empty catalogue.
    pub fn new() -> (r: Self)
        ensures
            r.wf(),
            r@ == Seq::<Customer>::empty(),
    {
        CustomerRepositoryImpl { table: Table::new() }
    }

    /// All customers, in catalogue order.
    pub fn find_all(&self) -> (r: Vec<Customer>)
        ensures
            r@ == self@,
    {
        self.table.find_all()
    }

    /// The customer with this identifier.
    pub fn find_by_id(&self, id: u128) -> (r: Option<Customer>)
        requires
            self.wf(),
        ensures
            r == record_by_key(self@, id),
    {
        self.table.find_by_id(id)
    }

    /// Creates a customer under `id` at `now`; the e-mail address must be
    /// new.
    pub fn save_at(&mut self, id: u128, now: i64, req: CreateCustomerRequest) -> (r: Result<
        Customer,
        RepoError,
    >)
        requires
            old(self).wf(),
        ensures
            final(self).wf(),
            (final(self)@, r) == customer_creation(old(self)@, id, now, req),
    {
        if !has_char_count_at_least(req.first_name.as_str(), MIN_NAME_LENGTH)
            || !has_char_count_at_least(req.last_name.as_str(), MIN_NAME_LENGTH) {
            return Err(RepoError::ValidationFailure);
        }
        self.table.insert(
            Customer {
                id,
                first_name: req.first_name,
                last_name: req.last_name,
                email: req.email,
                phone: req.phone,
                created_at: now,
            },
        )
    }

    /// Creates a customer under a fresh identifier, now.
    pub fn save(&mut self, req: CreateCustomerRequest) -> (r: Result<Customer, RepoError>)
        requires
            old(self).wf(),
        ensures
            final(self).wf(),
            exists|id: u128, now: i64|
                !has_key(record_keys(old(self)@), id) && (final(self)@, r) == #[trigger] customer_creation(old(self)@, id, now, req),
    {
        let id = self.table.fresh_id(new_id());
        let now = now_millis();
        self.save_at(id, now, req)
    }

    /// The first customer with exactly this e-mail address.
    pub fn find_by_email(&self, email: String) -> (r: Option<Customer>)
        ensures
            r == (if records_matching(self@, CustomerQuery::Email(email)).len() > 0 {
                Some(records_matching(self@, CustomerQuery::Email(email))[0])
            } else {
                None
            }),
    {
        let found = self.table.find_matching(&CustomerQuery::Email(email));
        if found.len() > 0 {
            Some(found[0].copy())
        } else {
            None
        }
    }

    /// The customers whose names contain these texts, ignoring letter case.
    pub fn find_by_name(&self, first_name: String, last_name: String) -> (r: Vec<Customer>)
        ensures
            r@ == records_matching(self@, CustomerQuery::NameLike(first_name, last_name)),
    {
        self.table.find_matching(&CustomerQuery::NameLike(first_name, last_name))
    }

    /// Whether some customer has exactly this e-mail address.
    pub fn exists_by_email(&self, email: String) -> (r: bool)
        ensures
            r == (records_matching(self@, CustomerQuery::Email(email)).len() > 0),
    {
        self.table.any_matching(&CustomerQuery::Email(email))
    }

    /// Replaces the fields of customer `id` with those of `req`; a new
    /// e-mail address must not belong to another customer.
    pub fn update(&mut self, id: u128, req: CreateCustomerRequest) -> (r: Result<
        Customer,
        RepoError,
    >)
        requires
            old(self).wf(),
        ensures
            final(self).wf(),
            (final(self)@, r) == customer_edit(old(self)@, id, req),
    {
        if !has_char_count_at_least(req.first_name.as_str(), MIN_NAME_LENGTH)
            || !has_char_count_at_least(req.last_name.as_str(), MIN_NAME_LENGTH) {
            return Err(RepoError::ValidationFailure);
        }
        match self.table.find_by_id(id) {
            None => Err(RepoError::NotFound),
            Some(c) => self.table.replace(
                Customer {
                    id,
                    first_name: req.first_name,
                    last_name: req.last_name,
                    email: req.email,
                    phone: req.phone,
                    created_at: c.created_at,
                },
            ),
        }
    }

    /// Removes customer `id`; true where it existed.
    pub fn delete(&mut self, id: u128) -> (r: bool)
        requires
            old(self).wf(),
        ensures
            final(self).wf(),
            (final(self)@, r) == record_removal(old(self)@, id),
    {
        self.table.remove(id)
    }
}

} // verus!
