//! Service works: labour items with a standard duration, identified by an
//! article that no other work has.

use vstd::prelude::*;
use crate::error::RepoError;
use crate::keys::has_key;
use crate::text::{contains_ignoring_case, contains_sub, lower_of};
use crate::system::{new_id, now_millis};
use crate::table::{
    record_keys,
    Record,
    Table,
    records_matching,
    record_by_key,
    record_insertion,
    record_removal,
    record_replacement,
};

verus! {

/// The shortest standard duration accepted, in minutes (a tenth of an hour).
pub const MIN_NORM_MINUTES: u32 = 6;

/// A work. Its standard duration is in minutes.
#[derive(Clone, Debug)]
pub struct Work {
    pub id: u128,
    pub name: String,
    pub article: String,
    pub norm_minutes: u32,
    pub brand_id: u128,
    pub car_model_id: u128,
    pub created_at: i64,
    pub updated_at: i64,
}

impl Record for Work {
    type Query = WorkQuery;

    open spec fn matches(&self, q: &WorkQuery) -> bool {
        match q {
            WorkQuery::Article(a) => self.article@ == a@,
            WorkQuery::Brand(b) => self.brand_id == b,
            WorkQuery::CarModel(m) => self.car_model_id == m,
            WorkQuery::NameLike(n) => contains_sub(lower_of(self.name@), lower_of(n@)),
        }
    }

    fn matches_query(&self, q: &WorkQuery) -> (r: bool) {
        match q {
            WorkQuery::Article(a) => self.article == *a,
            WorkQuery::Brand(b) => self.brand_id == *b,
            WorkQuery::CarModel(m) => self.car_model_id == *m,
            WorkQuery::NameLike(n) => contains_ignoring_case(self.name.as_str(), n.as_str()),
        }
    }

    open spec fn key(&self) -> u128 {
        self.id
    }

    open spec fn clashes(&self, other: &Work) -> bool {
        self.article@ == other.article@
    }

    fn id(&self) -> (r: u128) {
        self.id
    }

    fn clashes_with(&self, other: &Work) -> (r: bool) {
        self.article == other.article
    }

    fn copy(&self) -> (r: Work) {
        Work {
            id: self.id,
            name: self.name.clone(),
            article: self.article.clone(),
            norm_minutes: self.norm_minutes,
            brand_id: self.brand_id,
            car_model_id: self.car_model_id,
            created_at: self.created_at,
            updated_at: self.updated_at,
        }
    }
}

/// A selection of works.
#[derive(Clone, Debug)]
pub enum WorkQuery {
    /// Exactly this article.
    Article(String),
    Brand(u128),
    CarModel(u128),
    /// A name that contains this text, ignoring letter case.
    NameLike(String),
}

/// What a new work is made of.
#[derive(Clone, Debug)]
pub struct CreateWorkRequest {
    pub name: String,
    pub article: String,
    pub norm_minutes: u32,
    pub brand_id: u128,
    pub car_model_id: u128,
}

pub open spec fn new_work(id: u128, now: i64, req: CreateWorkRequest) -> Work {
    Work {
        id,
        name: req.name,
        article: req.article,
        norm_minutes: req.norm_minutes,
        brand_id: req.brand_id,
        car_model_id: req.car_model_id,
        created_at: now,
        updated_at: now,
    }
}

/// The catalogue and the result after creating a work under `id` at `now`:
/// name and article must not be empty, and the duration must reach the
/// minimum.
pub open spec fn work_creation(s: Seq<Work>, id: u128, now: i64, req: CreateWorkRequest) -> (
    Seq<Work>,
    Result<Work, RepoError>,
) {
    if req.name@.len() == 0 || req.article@.len() == 0 || req.norm_minutes < MIN_NORM_MINUTES {
        (s, Err(RepoError::ValidationFailure))
    } else {
        record_insertion(s, new_work(id, now, req))
    }
}

/// An edit of a work; each field given replaces the stored one.
#[derive(Clone, Debug)]
pub struct UpdateWorkRequest {
    pub name: Option<String>,
    pub article: Option<String>,
    pub norm_minutes: Option<u32>,
    pub brand_id: Option<u128>,
    pub car_model_id: Option<u128>,
}

pub open spec fn edited_work(w: Work, req: UpdateWorkRequest, now: i64) -> Work {
    Work {
        name: match req.name {
            Some(v) => v,
            None => w.name,
        },
        article: match req.article {
            Some(v) => v,
            None => w.article,
        },
        norm_minutes: match req.norm_minutes {
            Some(v) => v,
            None => w.norm_minutes,
        },
        brand_id: match req.brand_id {
            Some(v) => v,
            None => w.brand_id,
        },
        car_model_id: match req.car_model_id {
            Some(v) => v,
            None => w.car_model_id,
        },
        updated_at: now,
        ..w
    }
}

/// The catalogue and the result after editing work `id` at `now`.
pub open spec fn work_edit(s: Seq<Work>, id: u128, now: i64, req: UpdateWorkRequest) -> (
    Seq<Work>,
    Result<Work, RepoError>,
) {
    if req.norm_minutes.is_some() && req.norm_minutes.unwrap() < MIN_NORM_MINUTES {
        (s, Err(RepoError::ValidationFailure))
    } else {
        match record_by_key(s, id) {
            None => (s, Err(RepoError::NotFound)),
            Some(w) => record_replacement(s, edited_work(w, req, now)),
        }
    }
}

/// The work catalogue, held in memory.
pub struct WorkRepositoryImpl {
    table: Table<Work>,
}

impl View for WorkRepositoryImpl {
    type V = Seq<Work>;

    closed spec fn view(&self) -> Seq<Work> {
        self.table@
    }
}

impl WorkRepositoryImpl {
    pub closed spec fn wf(&self) -> bool {
        self.table.wf()
    }

    /// An empty catalogue.
    pub fn new() -> (r: Self)
        ensures
            r.wf(),
            r@ == Seq::<Work>::empty(),
    {
        WorkRepositoryImpl { table: Table::new() }
    }

    /// All works, in catalogue order.
    pub fn find_all(&self) -> (r: Vec<Work>)
        ensures
            r@ == self@,
    {
        self.table.find_all()
    }

    /// The work with this identifier.
    pub fn find_by_id(&self, id: u128) -> (r: Option<Work>)
        requires
            self.wf(),
        ensures
            r == record_by_key(self@, id),
    {
        self.table.find_by_id(id)
    }

    /// Creates a work under `id` at `now`; its article must be new.
    pub fn save_at(&mut self, id: u128, now: i64, req: CreateWorkRequest) -> (r: Result<
        Work,
        RepoError,
    >)
        requires
            old(self).wf(),
        ensures
            final(self).wf(),
            (final(self)@, r) == work_creation(old(self)@, id, now, req),
    {
        if req.name.as_str().is_empty() || req.article.as_str().is_empty() || req.norm_minutes
            < MIN_NORM_MINUTES {
            return Err(RepoError::ValidationFailure);
        }
        self.table.insert(
            Work {
                id,
                name: req.name,
                article: req.article,
                norm_minutes: req.norm_minutes,
                brand_id: req.brand_id,
                car_model_id: req.car_model_id,
                created_at: now,
                updated_at: now,
            },
        )
    }

    /// Creates a work under a fresh identifier, now.
    pub fn save(&mut self, req: CreateWorkRequest) -> (r: Result<Work, RepoError>)
        requires
            old(self).wf(),
        ensures
            final(self).wf(),
            exists|id: u128, now: i64|
                !has_key(record_keys(old(self)@), id) && (final(self)@, r) == #[trigger] work_creation(old(self)@, id, now, req),
    {
        let id = self.table.fresh_id(new_id());
        let now = now_millis();
        self.save_at(id, now, req)
    }

    /// The first work with exactly this article.
    pub fn find_by_article(&self, article: String) -> (r: Option<Work>)
        ensures
            r == (if records_matching(self@, WorkQuery::Article(article)).len() > 0 {
                Some(records_matching(self@, WorkQuery::Article(article))[0])
            } else {
                None
            }),
    {
        let found = self.table.find_matching(&WorkQuery::Article(article));
        if found.len() > 0 {
            Some(found[0].copy())
        } else {
            None
        }
    }

    /// The works of a brand.
    pub fn find_by_brand(&self, brand_id: u128) -> (r: Vec<Work>)
        ensures
            r@ == records_matching(self@, WorkQuery::Brand(brand_id)),
    {
        self.table.find_matching(&WorkQuery::Brand(brand_id))
    }

    /// The works of a car model.
    pub fn find_by_car_model(&self, car_model_id: u128) -> (r: Vec<Work>)
        ensures
            r@ == records_matching(self@, WorkQuery::CarModel(car_model_id)),
    {
        self.table.find_matching(&WorkQuery::CarModel(car_model_id))
    }

    /// The works whose name contains `name`, ignoring letter case.
    pub fn find_by_name(&self, name: String) -> (r: Vec<Work>)
        ensures
            r@ == records_matching(self@, WorkQuery::NameLike(name)),
    {
        self.table.find_matching(&WorkQuery::NameLike(name))
    }

    /// Whether some work has exactly this article.
    pub fn exists_by_article(&self, article: String) -> (r: bool)
        ensures
            r == (records_matching(self@, WorkQuery::Article(article)).len() > 0),
    {
        self.table.any_matching(&WorkQuery::Article(article))
    }

    /// Edits work `id` at `now`; a new article must not belong to another
    /// work.
    pub fn update_at(&mut self, id: u128, now: i64, req: UpdateWorkRequest) -> (r: Result<
        Work,
        RepoError,
    >)
        requires
            old(self).wf(),
        ensures
            final(self).wf(),
            (final(self)@, r) == work_edit(old(self)@, id, now, req),
    {
        match req.norm_minutes {
            Some(m) => {
                if m < MIN_NORM_MINUTES {
                    return Err(RepoError::ValidationFailure);
                }
            },
            None => {},
        }
        match self.table.find_by_id(id) {
            None => Err(RepoError::NotFound),
            Some(w) => {
                let edited = Work {
                    id: w.id,
                    name: match req.name {
                        Some(v) => v,
                        None => w.name,
                    },
                    article: match req.article {
                        Some(v) => v,
                        None => w.article,
                    },
                    norm_minutes: match req.norm_minutes {
                        Some(v) => v,
                        None => w.norm_minutes,
                    },
                    brand_id: match req.brand_id {
                        Some(v) => v,
                        None => w.brand_id,
                    },
                    car_model_id: match req.car_model_id {
                        Some(v) => v,
                        None => w.car_model_id,
                    },
                    created_at: w.created_at,
                    updated_at: now,
                };
                self.table.replace(edited)
            },
        }
    }

    /// Edits work `id`, now.
    pub fn update(&mut self, id: u128, req: UpdateWorkRequest) -> (r: Result<Work, RepoError>)
        requires
            old(self).wf(),
        ensures
            final(self).wf(),
            exists|now: i64|
                (final(self)@, r) == #[trigger] work_edit(old(self)@, id, now, req),
    {
        let now = now_millis();
        self.update_at(id, now, req)
    }

    /// Removes work `id`; true where it existed.
    pub fn delete(&mut self, id: u128) -> (r: bool)
        requires
            old(self).wf(),
        ensures
            final(self).wf(),
            (final(self)@, r) == record_removal(old(self)@, id),
    {
        self.table.remove(id)
    }
}

} // verus!
