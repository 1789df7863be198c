//! Car models: a name, unique within its brand.

use vstd::prelude::*;
use crate::error::RepoError;
use crate::keys::has_key;
use crate::text::{contains_ignoring_case, contains_sub, lower_of};
use crate::system::{new_id, now_millis};
use crate::table::{record_keys, Record, Table, records_matching, record_by_key, record_insertion, record_removal, record_replacement};

verus! {

#[derive(Clone, Debug)]
pub struct CarModel {
    pub id: u128,
    pub name: String,
    pub brand_id: u128,
    pub created_at: i64,
    pub updated_at: i64,
}

impl Record for CarModel {
    type Query = CarModelQuery;

    open spec fn matches(&self, q: &CarModelQuery) -> bool {
        match q {
            CarModelQuery::Brand(b) => self.brand_id == b,
            CarModelQuery::NameLike(n) => contains_sub(lower_of(self.name@), lower_of(n@)),
            CarModelQuery::BrandAndName(b, n) => self.brand_id == b && self.name@ == n@,
        }
    }

    fn matches_query(&self, q: &CarModelQuery) -> (r: bool) {
        match q {
            CarModelQuery::Brand(b) => self.brand_id == *b,
            CarModelQuery::NameLike(n) => contains_ignoring_case(self.name.as_str(), n.as_str()),
            CarModelQuery::BrandAndName(b, n) => self.brand_id == *b && self.name == *n,
        }
    }

    open spec fn key(&self) -> u128 {
        self.id
    }

    open spec fn clashes(&self, other: &CarModel) -> bool {
        self.brand_id == other.brand_id && self.name@ == other.name@
    }

    fn id(&self) -> (r: u128) {
        self.id
    }

    fn clashes_with(&self, other: &CarModel) -> (r: bool) {
        self.brand_id == other.brand_id && self.name == other.name
    }

    fn copy(&self) -> (r: CarModel) {
        CarModel {
            id: self.id,
            name: self.name.clone(),
            brand_id: self.brand_id,
            created_at: self.created_at,
            updated_at: self.updated_at,
        }
    }
}

/// A selection of car models.
#[derive(Clone, Debug)]
pub enum CarModelQuery {
    Brand(u128),
    /// A name that contains this text, ignoring letter case.
    NameLike(String),
    /// Exactly this name within this brand.
    BrandAndName(u128, String),
}

/// What a new model is made of; the name must not be empty.
#[derive(Clone, Debug)]
pub struct CreateCarModelRequest {
    pub name: String,
    pub brand_id: u128,
}

/// An edit of a model; each field given replaces the stored one.
#[derive(Clone, Debug)]
pub struct UpdateCarModelRequest {
    pub name: Option<String>,
    pub brand_id: Option<u128>,
}

pub open spec fn new_car_model(id: u128, now: i64, req: CreateCarModelRequest) -> CarModel {
    CarModel { id, name: req.name, brand_id: req.brand_id, created_at: now, updated_at: now }
}

/// The catalogue and the result after creating a model under `id` at `now`.
pub open spec fn car_model_creation(
    s: Seq<CarModel>,
    id: u128,
    now: i64,
    req: CreateCarModelRequest,
) -> (Seq<CarModel>, Result<CarModel, RepoError>) {
    if req.name@.len() == 0 {
        (s, Err(RepoError::ValidationFailure))
    } else {
        record_insertion(s, new_car_model(id, now, req))
    }
}

pub open spec fn edited_car_model(m: CarModel, req: UpdateCarModelRequest, now: i64) -> CarModel {
    CarModel {
        name: match req.name {
            Some(n) => n,
            None => m.name,
        },
        brand_id: match req.brand_id {
            Some(b) => b,
            None => m.brand_id,
        },
        updated_at: now,
        ..m
    }
}

/// The catalogue and the result after editing model `id` at `now`.
pub open spec fn car_model_edit(
    s: Seq<CarModel>,
    id: u128,
    now: i64,
    req: UpdateCarModelRequest,
) -> (Seq<CarModel>, Result<CarModel, RepoError>) {
    if req.name.is_some() && req.name.unwrap()@.len() == 0 {
        (s, Err(RepoError::ValidationFailure))
    } else {
        match record_by_key(s, id) {
            None => (s, Err(RepoError::NotFound)),
            Some(m) => record_replacement(s, edited_car_model(m, req, now)),
        }
    }
}

/// The model catalogue, held in memory.
pub struct CarModelRepositoryImpl {
    table: Table<CarModel>,
}

impl View for CarModelRepositoryImpl {
    type V = Seq<CarModel>;

    closed spec fn view(&self) -> Seq<CarModel> {
        self.table@
    }
}

impl CarModelRepositoryImpl {
    pub closed spec fn wf(&self) -> bool {
        self.table.wf()
    }

    /// An empty catalogue.
    pub fn new() -> (r: Self)
        ensures
            r.wf(),
            r@ == Seq::<CarModel>::empty(),
    {
        CarModelRepositoryImpl { table: Table::new() }
    }

    /// All models, in catalogue order.
    pub fn find_all(&self) -> (r: Vec<CarModel>)
        ensures
            r@ == self@,
    {
        self.table.find_all()
    }

    /// The model with this identifier.
    pub fn find_by_id(&self, id: u128) -> (r: Option<CarModel>)
        requires
            self.wf(),
        ensures
            r == record_by_key(self@, id),
    {
        self.table.find_by_id(id)
    }

    /// Creates a model under `id` at `now`; its name must be new within its
    /// brand.
    pub fn save_at(&mut self, id: u128, now: i64, req: CreateCarModelRequest) -> (r: Result<
        CarModel,
        RepoError,
    >)
        requires
            old(self).wf(),
        ensures
            final(self).wf(),
            (final(self)@, r) == car_model_creation(old(self)@, id, now, req),
    {
        if req.name.as_str().is_empty() {
            return Err(RepoError::ValidationFailure);
        }
        self.table.insert(
            CarModel { id, name: req.name, brand_id: req.brand_id, created_at: now, updated_at: now },
        )
    }

    /// Creates a model under a fresh identifier, now.
    pub fn save(&mut self, req: CreateCarModelRequest) -> (r: Result<CarModel, RepoError>)
        requires
            old(self).wf(),
        ensures
            final(self).wf(),
            exists|id: u128, now: i64|
                !has_key(record_keys(old(self)@), id) && (final(self)@, r) == #[trigger] car_model_creation(old(self)@, id, now, req),
    {
        let id = self.table.fresh_id(new_id());
        let now = now_millis();
        self.save_at(id, now, req)
    }

    /// Edits model `id` at `now`.
    pub fn update_at(&mut self, id: u128, now: i64, req: UpdateCarModelRequest) -> (r: Result<
        CarModel,
        RepoError,
    >)
        requires
            old(self).wf(),
        ensures
            final(self).wf(),
            (final(self)@, r) == car_model_edit(old(self)@, id, now, req),
    {
        match &req.name {
            Some(n) => {
                if n.as_str().is_empty() {
                    return Err(RepoError::ValidationFailure);
                }
            },
            None => {},
        }
        match self.table.find_by_id(id) {
            None => Err(RepoError::NotFound),
            Some(m) => {
                let edited = CarModel {
                    id: m.id,
                    name: match req.name {
                        Some(n) => n,
                        None => m.name,
                    },
                    brand_id: match req.brand_id {
                        Some(b) => b,
                        None => m.brand_id,
                    },
                    created_at: m.created_at,
                    updated_at: now,
                };
                self.table.replace(edited)
            },
        }
    }

    /// The models of a brand.
    pub fn find_by_brand(&self, brand_id: u128) -> (r: Vec<CarModel>)
        ensures
            r@ == records_matching(self@, CarModelQuery::Brand(brand_id)),
    {
        self.table.find_matching(&CarModelQuery::Brand(brand_id))
    }

    /// The models whose name contains `name`, ignoring letter case.
    pub fn find_by_name(&self, name: String) -> (r: Vec<CarModel>)
        ensures
            r@ == records_matching(self@, CarModelQuery::NameLike(name)),
    {
        self.table.find_matching(&CarModelQuery::NameLike(name))
    }

    /// Whether the brand has a model with exactly this name.
    pub fn exists_by_brand_and_name(&self, brand_id: u128, name: String) -> (r: bool)
        ensures
            r == (records_matching(self@, CarModelQuery::BrandAndName(brand_id, name)).len() > 0),
    {
        self.table.any_matching(&CarModelQuery::BrandAndName(brand_id, name))
    }

    /// Edits model `id`, now.
    pub fn update(&mut self, id: u128, req: UpdateCarModelRequest) -> (r: Result<CarModel, RepoError>)
        requires
            old(self).wf(),
        ensures
            final(self).wf(),
            exists|now: i64|
                (final(self)@, r) == #[trigger] car_model_edit(old(self)@, id, now, req),
    {
        let now = now_millis();
        self.update_at(id, now, req)
    }

    /// Removes model `id`; true where it existed.
    pub fn delete(&mut self, id: u128) -> (r: bool)
        requires
            old(self).wf(),
        ensures
            final(self).wf(),
            (final(self)@, r) == record_removal(old(self)@, id),
    {
        self.table.remove(id)
    }
}

} // verus!
