//! Brands of vehicles: a name, unique among brands, and a country.

use vstd::prelude::*;
use crate::error::RepoError;
use crate::keys::has_key;
use crate::text::{contains_ignoring_case, contains_sub, lower_of};
use crate::system::{new_id, now_millis};
use crate::table::{record_keys, Record, Table, records_matching, record_by_key, record_insertion, record_removal, record_replacement};

verus! {

#[derive(Clone, Debug)]
pub struct Brand {
    pub id: u128,
    pub name: String,
    pub country: String,
    pub created_at: i64,
    pub updated_at: i64,
}

impl Record for Brand {
    type Query = BrandQuery;

    open spec fn matches(&self, q: &BrandQuery) -> bool {
        match q {
            BrandQuery::Name(n) => self.name@ == n@,
            BrandQuery::CountryLike(c) => contains_sub(lower_of(self.country@), lower_of(c@)),
        }
    }

    fn matches_query(&self, q: &BrandQuery) -> (r: bool) {
        match q {
            BrandQuery::Name(n) => self.name == *n,
            BrandQuery::CountryLike(c) => contains_ignoring_case(self.country.as_str(), c.as_str()),
        }
    }

    open spec fn key(&self) -> u128 {
        self.id
    }

    open spec fn clashes(&self, other: &Brand) -> bool {
        self.name@ == other.name@
    }

    fn id(&self) -> (r: u128) {
        self.id
    }

    fn clashes_with(&self, other: &Brand) -> (r: bool) {
        self.name == other.name
    }

    fn copy(&self) -> (r: Brand) {
        Brand {
            id: self.id,
            name: self.name.clone(),
            country: self.country.clone(),
            created_at: self.created_at,
            updated_at: self.updated_at,
        }
    }
}

/// A selection of brands.
#[derive(Clone, Debug)]
pub enum BrandQuery {
    /// Exactly this name.
    Name(String),
    /// A country that contains this text, ignoring letter case.
    CountryLike(String),
}

/// What a new brand is made of; the name must not be empty.
#[derive(Clone, Debug)]
pub struct CreateBrandRequest {
    pub name: String,
    pub country: String,
}

/// An edit of a brand; each field given replaces the stored one.
#[derive(Clone, Debug)]
pub struct UpdateBrandRequest {
    pub name: Option<String>,
    pub country: Option<String>,
}

/// The brand that a creation request makes.
pub open spec fn new_brand(id: u128, now: i64, req: CreateBrandRequest) -> Brand {
    Brand { id, name: req.name, country: req.country, created_at: now, updated_at: now }
}

/// The catalogue and the result after creating a brand under `id` at `now`.
pub open spec fn brand_creation(s: Seq<Brand>, id: u128, now: i64, req: CreateBrandRequest) -> (
    Seq<Brand>,
    Result<Brand, RepoError>,
) {
    if req.name@.len() == 0 {
        (s, Err(RepoError::ValidationFailure))
    } else {
        record_insertion(s, new_brand(id, now, req))
    }
}

/// A brand after an edit at `now`.
pub open spec fn edited_brand(b: Brand, req: UpdateBrandRequest, now: i64) -> Brand {
    Brand {
        name: match req.name {
            Some(n) => n,
            None => b.name,
        },
        country: match req.country {
            Some(c) => c,
            None => b.country,
        },
        updated_at: now,
        ..b
    }
}

/// The catalogue and the result after editing brand `id` at `now`.
pub open spec fn brand_edit(s: Seq<Brand>, id: u128, now: i64, req: UpdateBrandRequest) -> (
    Seq<Brand>,
    Result<Brand, RepoError>,
) {
    if req.name.is_some() && req.name.unwrap()@.len() == 0 {
        (s, Err(RepoError::ValidationFailure))
    } else {
        match record_by_key(s, id) {
            None => (s, Err(RepoError::NotFound)),
            Some(b) => record_replacement(s, edited_brand(b, req, now)),
        }
    }
}

/// The brand catalogue, held in memory.
pub struct BrandRepositoryImpl {
    table: Table<Brand>,
}

impl View for BrandRepositoryImpl {
    type V = Seq<Brand>;

    closed spec fn view(&self) -> Seq<Brand> {
        self.table@
    }
}

impl BrandRepositoryImpl {
    pub closed spec fn wf(&self) -> bool {
        self.table.wf()
    }

    /// An empty catalogue.
    pub fn new() -> (r: Self)
        ensures
            r.wf(),
            r@ == Seq::<Brand>::empty(),
    {
        BrandRepositoryImpl { table: Table::new() }
    }

    /// All brands, in catalogue order.
    pub fn find_all(&self) -> (r: Vec<Brand>)
        ensures
            r@ == self@,
    {
        self.table.find_all()
    }

    /// The brand with this identifier.
    pub fn find_by_id(&self, id: u128) -> (r: Option<Brand>)
        requires
            self.wf(),
        ensures
            r == record_by_key(self@, id),
    {
        self.table.find_by_id(id)
    }

    /// Creates a brand under `id` at `now`; its name must be new.
    pub fn save_at(&mut self, id: u128, now: i64, req: CreateBrandRequest) -> (r: Result<
        Brand,
        RepoError,
    >)
        requires
            old(self).wf(),
        ensures
            final(self).wf(),
            (final(self)@, r) == brand_creation(old(self)@, id, now, req),
    {
        if req.name.as_str().is_empty() {
            return Err(RepoError::ValidationFailure);
        }
        self.table.insert(
            Brand { id, name: req.name, country: req.country, created_at: now, updated_at: now },
        )
    }

    /// Creates a brand under a fresh identifier, now.
    pub fn save(&mut self, req: CreateBrandRequest) -> (r: Result<Brand, RepoError>)
        requires
            old(self).wf(),
        ensures
            final(self).wf(),
            exists|id: u128, now: i64|
                !has_key(record_keys(old(self)@), id) && (final(self)@, r) == #[trigger] brand_creation(old(self)@, id, now, req),
    {
        let id = self.table.fresh_id(new_id());
        let now = now_millis();
        self.save_at(id, now, req)
    }

    /// Edits brand `id` at `now`; a new name must not be taken.
    pub fn update_at(&mut self, id: u128, now: i64, req: UpdateBrandRequest) -> (r: Result<
        Brand,
        RepoError,
    >)
        requires
            old(self).wf(),
        ensures
            final(self).wf(),
            (final(self)@, r) == brand_edit(old(self)@, id, now, req),
    {
        match &req.name {
            Some(n) => {
                if n.as_str().is_empty() {
                    return Err(RepoError::ValidationFailure);
                }
            },
            None => {},
        }
        match self.table.find_by_id(id) {
            None => Err(RepoError::NotFound),
            Some(b) => {
                let edited = Brand {
                    id: b.id,
                    name: match req.name {
                        Some(n) => n,
                        None => b.name,
                    },
                    country: match req.country {
                        Some(c) => c,
                        None => b.country,
                    },
                    created_at: b.created_at,
                    updated_at: now,
                };
                self.table.replace(edited)
            },
        }
    }

    /// Edits brand `id`, now.
    pub fn update(&mut self, id: u128, req: UpdateBrandRequest) -> (r: Result<Brand, RepoError>)
        requires
            old(self).wf(),
        ensures
            final(self).wf(),
            exists|now: i64|
                (final(self)@, r) == #[trigger] brand_edit(old(self)@, id, now, req),
    {
        let now = now_millis();
        self.update_at(id, now, req)
    }

    /// The first brand with exactly this name.
    pub fn find_by_name(&self, name: String) -> (r: Option<Brand>)
        ensures
            r == (if records_matching(self@, BrandQuery::Name(name)).len() > 0 {
                Some(records_matching(self@, BrandQuery::Name(name))[0])
            } else {
                None
            }),
    {
        let found = self.table.find_matching(&BrandQuery::Name(name));
        if found.len() > 0 {
            Some(found[0].copy())
        } else {
            None
        }
    }

    /// The brands whose country contains `country`, ignoring letter case.
    pub fn find_by_country(&self, country: String) -> (r: Vec<Brand>)
        ensures
            r@ == records_matching(self@, BrandQuery::CountryLike(country)),
    {
        self.table.find_matching(&BrandQuery::CountryLike(country))
    }

    /// Whether some brand has exactly this name.
    pub fn exists_by_name(&self, name: String) -> (r: bool)
        ensures
            r == (records_matching(self@, BrandQuery::Name(name)).len() > 0),
    {
        self.table.any_matching(&BrandQuery::Name(name))
    }

    /// Removes brand `id`; true where it existed.
    pub fn delete(&mut self, id: u128) -> (r: bool)
        requires
            old(self).wf(),
        ensures
            final(self).wf(),
            (final(self)@, r) == record_removal(old(self)@, id),
    {
        self.table.remove(id)
    }
}

} // verus!
