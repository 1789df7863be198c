//! The part catalogue: identity, display fields and prices of parts.

use vstd::prelude::*;
use crate::error::RepoError;
use crate::keys::{fresh_key, has_key, key_pos, lemma_key_pos, lemma_unique_push, lemma_unique_remove, unique_keys};
use crate::system::{new_id, now_millis};

verus! {

/// A part. Prices are in minor currency units (cents).
#[derive(Clone, Debug)]
pub struct Part {
    pub id: u128,
    pub article: String,
    pub name: String,
    pub brand_id: u128,
    pub car_model_id: u128,
    pub purchase_price: u64,
    pub sale_price: u64,
    pub compatible_vins: Vec<String>,
    pub created_at: i64,
    pub updated_at: i64,
}

/// A part as a mathematical value.
pub struct PartView {
    pub id: u128,
    pub article: Seq<char>,
    pub name: Seq<char>,
    pub brand_id: u128,
    pub car_model_id: u128,
    pub purchase_price: u64,
    pub sale_price: u64,
    pub compatible_vins: Seq<Seq<char>>,
    pub created_at: i64,
    pub updated_at: i64,
}

/// The value of each part.
pub open spec fn parts_view(v: Seq<Part>) -> Seq<PartView> {
    v.map_values(|p: Part| p@)
}

/// The characters of each string.
pub open spec fn strings_view(v: Seq<String>) -> Seq<Seq<char>> {
    v.map_values(|s: String| s@)
}

impl View for Part {
    type V = PartView;

    open spec fn view(&self) -> PartView {
        PartView {
            id: self.id,
            article: self.article@,
            name: self.name@,
            brand_id: self.brand_id,
            car_model_id: self.car_model_id,
            purchase_price: self.purchase_price,
            sale_price: self.sale_price,
            compatible_vins: strings_view(self.compatible_vins@),
            created_at: self.created_at,
            updated_at: self.updated_at,
        }
    }
}

impl Part {
    /// A field-by-field copy.
    pub fn copy(&self) -> (r: Part)
        ensures
            r@ == self@,
    {
        let vins = self.compatible_vins.clone();
        assert(strings_view(vins@) =~= strings_view(self.compatible_vins@));
        Part {
            id: self.id,
            article: self.article.clone(),
            name: self.name.clone(),
            brand_id: self.brand_id,
            car_model_id: self.car_model_id,
            purchase_price: self.purchase_price,
            sale_price: self.sale_price,
            compatible_vins: vins,
            created_at: self.created_at,
            updated_at: self.updated_at,
        }
    }
}

/// What a new part is made of.
#[derive(Clone, Debug)]
pub struct CreatePartRequest {
    pub article: String,
    pub name: String,
    pub brand_id: u128,
    pub car_model_id: u128,
    pub purchase_price: u64,
    pub sale_price: u64,
    pub compatible_vins: Vec<String>,
}

/// A selection of parts by one attribute.
#[derive(Clone, Debug)]
pub enum PartFilter {
    Brand(u128),
    CarModel(u128),
    /// Parts that list this VIN as compatible.
    Vin(String),
}

/// Whether a part is selected by the filter.
pub open spec fn part_filter_matches(f: PartFilter, p: PartView) -> bool {
    match f {
        PartFilter::Brand(b) => p.brand_id == b,
        PartFilter::CarModel(m) => p.car_model_id == m,
        PartFilter::Vin(v) => p.compatible_vins.contains(v@),
    }
}

/// The parts the filter selects, in catalogue order.
pub open spec fn parts_filtered(s: Seq<PartView>, f: PartFilter) -> Seq<PartView>
    decreases s.len(),
{
    if s.len() == 0 {
        Seq::empty()
    } else if part_filter_matches(f, s.last()) {
        parts_filtered(s.drop_last(), f).push(s.last())
    } else {
        parts_filtered(s.drop_last(), f)
    }
}

/// An edit of a part; each field given replaces the stored one.
#[derive(Clone, Debug)]
pub struct UpdatePartRequest {
    pub article: Option<String>,
    pub name: Option<String>,
    pub brand_id: Option<u128>,
    pub car_model_id: Option<u128>,
    pub purchase_price: Option<u64>,
    pub sale_price: Option<u64>,
    pub compatible_vins: Option<Vec<String>>,
}

/// A part after an edit at `now`.
pub open spec fn edited_part(p: PartView, req: UpdatePartRequest, now: i64) -> PartView {
    PartView {
        id: p.id,
        article: match req.article {
            Some(v) => v@,
            None => p.article,
        },
        name: match req.name {
            Some(v) => v@,
            None => p.name,
        },
        brand_id: match req.brand_id {
            Some(v) => v,
            None => p.brand_id,
        },
        car_model_id: match req.car_model_id {
            Some(v) => v,
            None => p.car_model_id,
        },
        purchase_price: match req.purchase_price {
            Some(v) => v,
            None => p.purchase_price,
        },
        sale_price: match req.sale_price {
            Some(v) => v,
            None => p.sale_price,
        },
        compatible_vins: match req.compatible_vins {
            Some(v) => strings_view(v@),
            None => p.compatible_vins,
        },
        created_at: p.created_at,
        updated_at: now,
    }
}

/// The catalogue and the result after editing part `id` at `now`. A new
/// article must not belong to another part.
pub open spec fn part_edit(s: Seq<PartView>, id: u128, now: i64, req: UpdatePartRequest) -> (
    Seq<PartView>,
    Result<PartView, RepoError>,
) {
    if !has_key(part_ids(s), id) {
        (s, Err(RepoError::NotFound))
    } else {
        let i = key_pos(part_ids(s), id);
        if req.article.is_some() && req.article.unwrap()@ != s[i].article && has_article(
            s,
            req.article.unwrap()@,
        ) {
            (s, Err(RepoError::Conflict))
        } else {
            let p = edited_part(s[i], req, now);
            (s.update(i, p), Ok(p))
        }
    }
}

/// Applies an edit to a part at `now`.
fn apply_part_edit(p: Part, req: UpdatePartRequest, now: i64) -> (r: Part)
    ensures
        r@ == edited_part(p@, req, now),
{
    Part {
        id: p.id,
        article: match req.article {
            Some(v) => v,
            None => p.article,
        },
        name: match req.name {
            Some(v) => v,
            None => p.name,
        },
        brand_id: match req.brand_id {
            Some(v) => v,
            None => p.brand_id,
        },
        car_model_id: match req.car_model_id {
            Some(v) => v,
            None => p.car_model_id,
        },
        purchase_price: match req.purchase_price {
            Some(v) => v,
            None => p.purchase_price,
        },
        sale_price: match req.sale_price {
            Some(v) => v,
            None => p.sale_price,
        },
        compatible_vins: match req.compatible_vins {
            Some(v) => v,
            None => p.compatible_vins,
        },
        created_at: p.created_at,
        updated_at: now,
    }
}

/// The identifiers of the parts, in store order.
pub open spec fn part_ids(s: Seq<PartView>) -> Seq<u128> {
    s.map_values(|p: PartView| p.id)
}

/// Some part has this article.
pub open spec fn has_article(s: Seq<PartView>, article: Seq<char>) -> bool {
    exists|i: int| 0 <= i < s.len() && s[i].article == article
}

/// The well-formed catalogue: identifiers are unique.
pub open spec fn catalog_wf(s: Seq<PartView>) -> bool {
    unique_keys(part_ids(s))
}

/// The part with this identifier, if any.
pub open spec fn part_by_id(s: Seq<PartView>, id: u128) -> Option<PartView> {
    if has_key(part_ids(s), id) {
        Some(s[key_pos(part_ids(s), id)])
    } else {
        None
    }
}

/// The part that a creation request makes.
pub open spec fn new_part(id: u128, now: i64, req: CreatePartRequest) -> PartView {
    PartView {
        id,
        article: req.article@,
        name: req.name@,
        brand_id: req.brand_id,
        car_model_id: req.car_model_id,
        purchase_price: req.purchase_price,
        sale_price: req.sale_price,
        compatible_vins: strings_view(req.compatible_vins@),
        created_at: now,
        updated_at: now,
    }
}

/// The catalogue and the result after creating a part under `id` at `now`.
pub open spec fn part_creation(s: Seq<PartView>, id: u128, now: i64, req: CreatePartRequest) -> (
    Seq<PartView>,
    Result<PartView, RepoError>,
) {
    if req.article@.len() == 0 || req.name@.len() == 0 {
        (s, Err(RepoError::ValidationFailure))
    } else if has_article(s, req.article@) || has_key(part_ids(s), id) {
        (s, Err(RepoError::Conflict))
    } else {
        (s.push(new_part(id, now, req)), Ok(new_part(id, now, req)))
    }
}

/// The catalogue and the result after deleting the part `id`.
pub open spec fn part_deletion(s: Seq<PartView>, id: u128) -> (Seq<PartView>, bool) {
    if has_key(part_ids(s), id) {
        (s.remove(key_pos(part_ids(s), id)), true)
    } else {
        (s, false)
    }
}

/// The part catalogue, held in memory.
pub struct PartRepositoryImpl {
    parts: Vec<Part>,
}

impl View for PartRepositoryImpl {
    type V = Seq<PartView>;

    closed spec fn view(&self) -> Seq<PartView> {
        parts_view(self.parts@)
    }
}

impl PartRepositoryImpl {
    pub open spec fn wf(&self) -> bool {
        catalog_wf(self@)
    }

    /// An empty catalogue.
    pub fn new() -> (r: Self)
        ensures
            r.wf(),
            r@ == Seq::<PartView>::empty(),
    {
        let r = PartRepositoryImpl { parts: Vec::new() };
        assert(r@ =~= Seq::<PartView>::empty());
        assert(part_ids(r@) =~= Seq::<u128>::empty());
        r
    }

    /// The position of the part `id`.
    fn position(&self, id: u128) -> (r: Option<usize>)
        requires
            self.wf(),
        ensures
            match r {
                Some(i) => i < self@.len() && key_pos(part_ids(self@), id) == i && has_key(
                    part_ids(self@),
                    id,
                ),
                None => !has_key(part_ids(self@), id),
            },
    {
        let mut i: usize = 0;
        while i < self.parts.len()
            invariant
                i <= self.parts@.len(),
                self@ == parts_view(self.parts@),
                self.parts@.len() == self@.len(),
                self.wf(),
                forall|j: int| 0 <= j < i ==> self@[j].id != id,
            decreases self.parts@.len() - i,
        {
            if self.parts[i].id == id {
                proof {
                    lemma_key_pos(part_ids(self@), id, i as int);
                }
                return Some(i);
            }
            i += 1;
        }
        proof {
            assert forall|j: int| 0 <= j < part_ids(self@).len() implies part_ids(self@)[j] != id by {
                assert(self@[j].id != id);
            }
        }
        None
    }

    /// All parts, in store order.
    pub fn find_all(&self) -> (r: Vec<Part>)
        ensures
            parts_view(r@) == self@,
    {
        let mut out: Vec<Part> = Vec::new();
        let mut i: usize = 0;
        while i < self.parts.len()
            invariant
                i <= self.parts@.len(),
                self@ == parts_view(self.parts@),
                self.parts@.len() == self@.len(),
                parts_view(out@) == self@.take(i as int),
            decreases self.parts@.len() - i,
        {
            let ghost prev = out@;
            out.push(self.parts[i].copy());
            assert(parts_view(out@) =~= parts_view(prev).push(self@[i as int]));
            assert(self@.take(i as int + 1) =~= self@.take(i as int).push(self@[i as int]));
            i += 1;
        }
        assert(self@.take(i as int) =~= self@);
        out
    }

    /// The part with this identifier.
    pub fn find_by_id(&self, id: u128) -> (r: Option<Part>)
        requires
            self.wf(),
        ensures
            match r {
                Some(p) => part_by_id(self@, id) == Some(p@),
                None => part_by_id(self@, id).is_none(),
            },
    {
        match self.position(id) {
            Some(i) => Some(self.parts[i].copy()),
            None => None,
        }
    }

    /// Whether the part lists `vin` as compatible.
    fn lists_vin(part: &Part, vin: &String) -> (r: bool)
        ensures
            r == part@.compatible_vins.contains(vin@),
    {
        let mut i: usize = 0;
        while i < part.compatible_vins.len()
            invariant
                i <= part.compatible_vins@.len(),
                forall|j: int| 0 <= j < i ==> part@.compatible_vins[j] != vin@,
            decreases part.compatible_vins@.len() - i,
        {
            if part.compatible_vins[i] == *vin {
                assert(part@.compatible_vins[i as int] == vin@);
                return true;
            }
            i += 1;
        }
        false
    }

    /// The parts the filter selects, in catalogue order.
    pub fn find_by(&self, f: &PartFilter) -> (r: Vec<Part>)
        ensures
            parts_view(r@) == parts_filtered(self@, *f),
    {
        let mut out: Vec<Part> = Vec::new();
        let mut i: usize = 0;
        while i < self.parts.len()
            invariant
                i <= self@.len(),
                self@ == parts_view(self.parts@),
                self.parts@.len() == self@.len(),
                parts_view(out@) == parts_filtered(self@.take(i as int), *f),
            decreases self@.len() - i,
        {
            let p = &self.parts[i];
            let selected = match f {
                PartFilter::Brand(b) => p.brand_id == *b,
                PartFilter::CarModel(m) => p.car_model_id == *m,
                PartFilter::Vin(v) => Self::lists_vin(p, v),
            };
            let ghost prev = out@;
            assert(self@.take(i as int + 1).drop_last() =~= self@.take(i as int));
            if selected {
                out.push(p.copy());
                assert(parts_view(out@) =~= parts_view(prev).push(self@[i as int]));
            }
            i += 1;
        }
        assert(self@.take(i as int) =~= self@);
        out
    }

    /// The parts of a brand.
    pub fn find_by_brand(&self, brand_id: u128) -> (r: Vec<Part>)
        ensures
            parts_view(r@) == parts_filtered(self@, PartFilter::Brand(brand_id)),
    {
        self.find_by(&PartFilter::Brand(brand_id))
    }

    /// The parts of a car model.
    pub fn find_by_car_model(&self, car_model_id: u128) -> (r: Vec<Part>)
        ensures
            parts_view(r@) == parts_filtered(self@, PartFilter::CarModel(car_model_id)),
    {
        self.find_by(&PartFilter::CarModel(car_model_id))
    }

    /// The parts that list this VIN as compatible.
    pub fn find_by_vin(&self, vin: String) -> (r: Vec<Part>)
        ensures
            parts_view(r@) == parts_filtered(self@, PartFilter::Vin(vin)),
    {
        self.find_by(&PartFilter::Vin(vin))
    }

    /// The part with this article.
    pub fn find_by_article(&self, article: &str) -> (r: Option<Part>)
        ensures
            match r {
                Some(p) => p@.article == article@ && self@.contains(p@),
                None => !has_article(self@, article@),
            },
    {
        let key = article.to_owned();
        let mut i: usize = 0;
        while i < self.parts.len()
            invariant
                i <= self.parts@.len(),
                self@ == parts_view(self.parts@),
                self.parts@.len() == self@.len(),
                key@ == article@,
                forall|j: int| 0 <= j < i ==> self@[j].article != article@,
            decreases self.parts@.len() - i,
        {
            if self.parts[i].article == key {
                let p = self.parts[i].copy();
                assert(self@[i as int] == p@);
                return Some(p);
            }
            i += 1;
        }
        None
    }

    /// Whether some part has this article.
    pub fn exists_by_article(&self, article: &str) -> (r: bool)
        ensures
            r == has_article(self@, article@),
    {
        let key = article.to_owned();
        let mut i: usize = 0;
        while i < self.parts.len()
            invariant
                i <= self.parts@.len(),
                self@ == parts_view(self.parts@),
                self.parts@.len() == self@.len(),
                key@ == article@,
                forall|j: int| 0 <= j < i ==> self@[j].article != article@,
            decreases self.parts@.len() - i,
        {
            if self.parts[i].article == key {
                assert(self@[i as int].article == article@);
                return true;
            }
            i += 1;
        }
        false
    }

    /// Adds a part under `id`, created at `now`. The article must be new;
    /// article and name must not be empty.
    pub fn save_at(&mut self, id: u128, now: i64, req: CreatePartRequest) -> (r: Result<
        Part,
        RepoError,
    >)
        requires
            old(self).wf(),
        ensures
            final(self).wf(),
            final(self)@ == part_creation(old(self)@, id, now, req).0,
            match r {
                Ok(p) => part_creation(old(self)@, id, now, req).1 == Ok::<PartView, RepoError>(p@),
                Err(e) => part_creation(old(self)@, id, now, req).1 == Err::<PartView, RepoError>(e),
            },
    {
        if req.article.as_str().is_empty() || req.name.as_str().is_empty() {
            return Err(RepoError::ValidationFailure);
        }
        if self.exists_by_article(req.article.as_str()) {
            return Err(RepoError::Conflict);
        }
        if self.position(id).is_some() {
            return Err(RepoError::Conflict);
        }
        let part = Part {
            id,
            article: req.article,
            name: req.name,
            brand_id: req.brand_id,
            car_model_id: req.car_model_id,
            purchase_price: req.purchase_price,
            sale_price: req.sale_price,
            compatible_vins: req.compatible_vins,
            created_at: now,
            updated_at: now,
        };
        let out = part.copy();
        self.parts.push(part);
        proof {
            assert(self@ =~= old(self)@.push(new_part(id, now, req)));
            assert(part_ids(self@) =~= part_ids(old(self)@).push(id));
            lemma_unique_push(part_ids(old(self)@), id);
        }
        Ok(out)
    }

    /// An identifier that no stored record has: `candidate` where it is
    /// free, else the least free one.
    fn fresh_id(&self, candidate: u128) -> (r: u128)
        ensures
            !has_key(part_ids(self@), r),
    {
        let mut keys: Vec<u128> = Vec::new();
        let mut i: usize = 0;
        while i < self.parts.len()
            invariant
                i <= self@.len(),
                self.parts@.len() == self@.len(),
                self@ == parts_view(self.parts@),
                keys@ == part_ids(self@.take(i as int)),
            decreases self@.len() - i,
        {
            keys.push(self.parts[i].id);
            i += 1;
            assert(keys@ =~= part_ids(self@.take(i as int)));
        }
        assert(self@.take(i as int) =~= self@);
        fresh_key(&keys, candidate)
    }

    /// Adds a part under a fresh identifier, created now.
    pub fn save(&mut self, req: CreatePartRequest) -> (r: Result<Part, RepoError>)
        requires
            old(self).wf(),
        ensures
            final(self).wf(),
            exists|id: u128, now: i64|
                !has_key(part_ids(old(self)@), id) && {
                    let (s, res) = #[trigger] part_creation(old(self)@, id, now, req);
                    &&& final(self)@ == s
                    &&& match r {
                        Ok(p) => res == Ok::<PartView, RepoError>(p@),
                        Err(e) => res == Err::<PartView, RepoError>(e),
                    }
                },
    {
        let id = self.fresh_id(new_id());
        let now = now_millis();
        self.save_at(id, now, req)
    }

    /// Edits part `id` at `now`.
    pub fn update_at(&mut self, id: u128, now: i64, req: UpdatePartRequest) -> (r: Result<
        Part,
        RepoError,
    >)
        requires
            old(self).wf(),
        ensures
            final(self).wf(),
            final(self)@ == part_edit(old(self)@, id, now, req).0,
            match r {
                Ok(p) => part_edit(old(self)@, id, now, req).1 == Ok::<PartView, RepoError>(p@),
                Err(e) => part_edit(old(self)@, id, now, req).1 == Err::<PartView, RepoError>(e),
            },
    {
        match self.position(id) {
            None => Err(RepoError::NotFound),
            Some(i) => {
                match &req.article {
                    Some(a) => {
                        if *a != self.parts[i].article && self.exists_by_article(a.as_str()) {
                            return Err(RepoError::Conflict);
                        }
                    },
                    None => {},
                }
                let p = apply_part_edit(self.parts[i].copy(), req, now);
                let out = p.copy();
                self.parts.set(i, p);
                proof {
                    assert(self@ =~= old(self)@.update(i as int, out@));
                    assert(part_ids(self@) =~= part_ids(old(self)@));
                }
                Ok(out)
            },
        }
    }

    /// Edits part `id`, now.
    pub fn update(&mut self, id: u128, req: UpdatePartRequest) -> (r: Result<Part, RepoError>)
        requires
            old(self).wf(),
        ensures
            final(self).wf(),
            exists|now: i64|
                {
                    let (s, res) = #[trigger] part_edit(old(self)@, id, now, req);
                    &&& final(self)@ == s
                    &&& match r {
                        Ok(c) => res == Ok::<PartView, RepoError>(c@),
                        Err(e) => res == Err::<PartView, RepoError>(e),
                    }
                },
    {
        let now = now_millis();
        self.update_at(id, now, req)
    }

    /// Removes the part `id`; true where it existed.
    pub fn delete(&mut self, id: u128) -> (r: bool)
        requires
            old(self).wf(),
        ensures
            final(self).wf(),
            (final(self)@, r) == part_deletion(old(self)@, id),
    {
        match self.position(id) {
            Some(i) => {
                self.parts.remove(i);
                proof {
                    assert(self@ =~= old(self)@.remove(i as int));
                    assert(part_ids(self@) =~= part_ids(old(self)@).remove(i as int));
                    lemma_unique_remove(part_ids(old(self)@), i as int);
                }
                true
            },
            None => false,
        }
    }
}

} // verus!
