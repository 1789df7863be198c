//! Service campaigns: recall-like actions that vehicles of a brand and
//! model may owe, and the catalogue that holds them.

use vstd::prelude::*;
use crate::error::RepoError;
use crate::keys::{fresh_key, copy_ids, has_key, key_pos, lemma_key_pos, lemma_unique_push, lemma_unique_remove, unique_keys};
use crate::part::strings_view;
use crate::system::{new_id, now_millis};
use crate::text::{lower_of, lowercase};

verus! {

/// Where a campaign stands. Only active campaigns are owed by vehicles.
#[derive(Clone, Copy, Debug, PartialEq, Eq, Structural)]
pub enum ServiceCampaignStatus {
    Active,
    Completed,
    Cancelled,
}

/// The stored name of each status.
pub open spec fn status_name(s: ServiceCampaignStatus) -> Seq<char> {
    match s {
        ServiceCampaignStatus::Active => "active"@,
        ServiceCampaignStatus::Completed => "completed"@,
        ServiceCampaignStatus::Cancelled => "cancelled"@,
    }
}

/// The status with this stored name, if any.
pub open spec fn status_named(name: Seq<char>) -> Option<ServiceCampaignStatus> {
    if name == "active"@ {
        Some(ServiceCampaignStatus::Active)
    } else if name == "completed"@ {
        Some(ServiceCampaignStatus::Completed)
    } else if name == "cancelled"@ {
        Some(ServiceCampaignStatus::Cancelled)
    } else {
        None
    }
}

impl ServiceCampaignStatus {
    /// The stored name: `active`, `completed` or `cancelled`.
    pub fn as_str(&self) -> (r: &'static str)
        ensures
            r@ == status_name(*self),
    {
        match self {
            ServiceCampaignStatus::Active => "active",
            ServiceCampaignStatus::Completed => "completed",
            ServiceCampaignStatus::Cancelled => "cancelled",
        }
    }

    /// The status whose stored name is `name` exactly.
    pub fn from_lowercase(name: &str) -> (r: Option<ServiceCampaignStatus>)
        ensures
            r == status_named(name@),
    {
        let n = name.to_owned();
        if n == "active".to_owned() {
            Some(ServiceCampaignStatus::Active)
        } else if n == "completed".to_owned() {
            Some(ServiceCampaignStatus::Completed)
        } else if n == "cancelled".to_owned() {
            Some(ServiceCampaignStatus::Cancelled)
        } else {
            None
        }
    }
}

impl ServiceCampaignRepositoryImpl {
    /// The status named by `status` in any letter case. An unknown name is
    /// refused rather than read as a default.
    pub fn status_from_str(status: &str) -> (r: Option<ServiceCampaignStatus>)
        ensures
            r == status_named(lower_of(status@)),
    {
        let lower = lowercase(status);
        ServiceCampaignStatus::from_lowercase(lower.as_str())
    }
}

/// A service campaign.
#[derive(Clone, Debug)]
pub struct ServiceCampaign {
    pub id: u128,
    pub article: String,
    pub name: String,
    pub description: Option<String>,
    pub brand_id: u128,
    pub car_model_id: u128,
    /// The VINs the campaign is aimed at; empty means every VIN of the brand
    /// and model.
    pub target_vins: Vec<String>,
    pub required_parts: Vec<u128>,
    pub required_works: Vec<u128>,
    pub is_mandatory: bool,
    /// A campaign-wide flag, apart from any vehicle's own record.
    pub is_completed: bool,
    pub status: ServiceCampaignStatus,
    pub created_at: i64,
    pub updated_at: i64,
}

/// A campaign as a mathematical value.
pub struct CampaignView {
    pub id: u128,
    pub article: Seq<char>,
    pub name: Seq<char>,
    pub description: Option<Seq<char>>,
    pub brand_id: u128,
    pub car_model_id: u128,
    pub target_vins: Seq<Seq<char>>,
    pub required_parts: Seq<u128>,
    pub required_works: Seq<u128>,
    pub is_mandatory: bool,
    pub is_completed: bool,
    pub status: ServiceCampaignStatus,
    pub created_at: i64,
    pub updated_at: i64,
}

/// The characters of an optional string.
pub open spec fn opt_string_view(o: Option<String>) -> Option<Seq<char>> {
    match o {
        Some(s) => Some(s@),
        None => None,
    }
}

impl View for ServiceCampaign {
    type V = CampaignView;

    open spec fn view(&self) -> CampaignView {
        CampaignView {
            id: self.id,
            article: self.article@,
            name: self.name@,
            description: opt_string_view(self.description),
            brand_id: self.brand_id,
            car_model_id: self.car_model_id,
            target_vins: strings_view(self.target_vins@),
            required_parts: self.required_parts@,
            required_works: self.required_works@,
            is_mandatory: self.is_mandatory,
            is_completed: self.is_completed,
            status: self.status,
            created_at: self.created_at,
            updated_at: self.updated_at,
        }
    }
}

impl ServiceCampaign {
    /// A field-by-field copy.
    pub fn copy(&self) -> (r: ServiceCampaign)
        ensures
            r@ == self@,
    {
        let vins = self.target_vins.clone();
        assert(strings_view(vins@) =~= strings_view(self.target_vins@));
        ServiceCampaign {
            id: self.id,
            article: self.article.clone(),
            name: self.name.clone(),
            description: self.description.clone(),
            brand_id: self.brand_id,
            car_model_id: self.car_model_id,
            target_vins: vins,
            required_parts: copy_ids(&self.required_parts),
            required_works: copy_ids(&self.required_works),
            is_mandatory: self.is_mandatory,
            is_completed: self.is_completed,
            status: self.status,
            created_at: self.created_at,
            updated_at: self.updated_at,
        }
    }

    /// Whether `vin` is among the campaign's target VINs.
    pub fn targets_vin(&self, vin: &String) -> (r: bool)
        ensures
            r == self@.target_vins.contains(vin@),
    {
        let mut i: usize = 0;
        while i < self.target_vins.len()
            invariant
                i <= self.target_vins@.len(),
                forall|j: int| 0 <= j < i ==> self@.target_vins[j] != vin@,
            decreases self.target_vins@.len() - i,
        {
            if self.target_vins[i] == *vin {
                assert(self@.target_vins[i as int] == vin@);
                return true;
            }
            i += 1;
        }
        false
    }
}

/// What a new campaign is made of. It starts active and not completed.
#[derive(Clone, Debug)]
pub struct CreateServiceCampaignRequest {
    pub article: String,
    pub name: String,
    pub description: Option<String>,
    pub brand_id: u128,
    pub car_model_id: u128,
    pub target_vins: Vec<String>,
    pub required_parts: Vec<u128>,
    pub required_works: Vec<u128>,
    pub is_mandatory: bool,
}

/// An edit of a campaign; each field given replaces the stored one.
#[derive(Clone, Debug)]
pub struct UpdateServiceCampaignRequest {
    pub article: Option<String>,
    pub name: Option<String>,
    pub description: Option<String>,
    pub brand_id: Option<u128>,
    pub car_model_id: Option<u128>,
    pub target_vins: Option<Vec<String>>,
    pub required_parts: Option<Vec<u128>>,
    pub required_works: Option<Vec<u128>>,
    pub is_mandatory: Option<bool>,
    pub is_completed: Option<bool>,
    pub status: Option<ServiceCampaignStatus>,
}

/// A campaign after an edit at `now`.
pub open spec fn edited_campaign(c: CampaignView, req: UpdateServiceCampaignRequest, now: i64) -> CampaignView {
    CampaignView {
        id: c.id,
        article: match req.article {
            Some(a) => a@,
            None => c.article,
        },
        name: match req.name {
            Some(n) => n@,
            None => c.name,
        },
        description: match req.description {
            Some(d) => Some(d@),
            None => c.description,
        },
        brand_id: match req.brand_id {
            Some(b) => b,
            None => c.brand_id,
        },
        car_model_id: match req.car_model_id {
            Some(m) => m,
            None => c.car_model_id,
        },
        target_vins: match req.target_vins {
            Some(v) => strings_view(v@),
            None => c.target_vins,
        },
        required_parts: match req.required_parts {
            Some(v) => v@,
            None => c.required_parts,
        },
        required_works: match req.required_works {
            Some(v) => v@,
            None => c.required_works,
        },
        is_mandatory: match req.is_mandatory {
            Some(b) => b,
            None => c.is_mandatory,
        },
        is_completed: match req.is_completed {
            Some(b) => b,
            None => c.is_completed,
        },
        status: match req.status {
            Some(st) => st,
            None => c.status,
        },
        created_at: c.created_at,
        updated_at: now,
    }
}

/// The catalogue and the result after editing campaign `id` at `now`. A new
/// article must not belong to another campaign.
pub open spec fn campaign_edit(
    s: Seq<CampaignView>,
    id: u128,
    now: i64,
    req: UpdateServiceCampaignRequest,
) -> (Seq<CampaignView>, Result<CampaignView, RepoError>) {
    if !has_key(campaign_ids(s), id) {
        (s, Err(RepoError::NotFound))
    } else {
        let i = key_pos(campaign_ids(s), id);
        if req.article.is_some() && req.article.unwrap()@ != s[i].article && has_campaign_article(
            s,
            req.article.unwrap()@,
        ) {
            (s, Err(RepoError::Conflict))
        } else {
            let c = edited_campaign(s[i], req, now);
            (s.update(i, c), Ok(c))
        }
    }
}

/// A selection of campaigns by one attribute.
#[derive(Clone, Debug)]
pub enum CampaignFilter {
    Brand(u128),
    CarModel(u128),
    Status(ServiceCampaignStatus),
    Mandatory(bool),
    Completed(bool),
    /// Campaigns that name this VIN among their targets.
    Vin(String),
}

/// Whether a campaign is selected by the filter.
pub open spec fn filter_matches(f: CampaignFilter, c: CampaignView) -> bool {
    match f {
        CampaignFilter::Brand(b) => c.brand_id == b,
        CampaignFilter::CarModel(m) => c.car_model_id == m,
        CampaignFilter::Status(s) => c.status == s,
        CampaignFilter::Mandatory(b) => c.is_mandatory == b,
        CampaignFilter::Completed(b) => c.is_completed == b,
        CampaignFilter::Vin(v) => c.target_vins.contains(v@),
    }
}

/// The campaigns the filter selects, in catalogue order.
pub open spec fn filtered(s: Seq<CampaignView>, f: CampaignFilter) -> Seq<CampaignView>
    decreases s.len(),
{
    if s.len() == 0 {
        Seq::empty()
    } else if filter_matches(f, s.last()) {
        filtered(s.drop_last(), f).push(s.last())
    } else {
        filtered(s.drop_last(), f)
    }
}

/// The value of each campaign.
pub open spec fn campaigns_view(v: Seq<ServiceCampaign>) -> Seq<CampaignView> {
    v.map_values(|c: ServiceCampaign| c@)
}

/// The campaign identifiers, in catalogue order.
pub open spec fn campaign_ids(s: Seq<CampaignView>) -> Seq<u128> {
    s.map_values(|c: CampaignView| c.id)
}

/// Some campaign has this article.
pub open spec fn has_campaign_article(s: Seq<CampaignView>, article: Seq<char>) -> bool {
    exists|i: int| 0 <= i < s.len() && s[i].article == article
}

/// The campaign with this identifier, if any.
pub open spec fn campaign_by_id(s: Seq<CampaignView>, id: u128) -> Option<CampaignView> {
    if has_key(campaign_ids(s), id) {
        Some(s[key_pos(campaign_ids(s), id)])
    } else {
        None
    }
}

/// The campaign that a creation request makes.
pub open spec fn new_campaign(id: u128, now: i64, req: CreateServiceCampaignRequest) -> CampaignView {
    CampaignView {
        id,
        article: req.article@,
        name: req.name@,
        description: opt_string_view(req.description),
        brand_id: req.brand_id,
        car_model_id: req.car_model_id,
        target_vins: strings_view(req.target_vins@),
        required_parts: req.required_parts@,
        required_works: req.required_works@,
        is_mandatory: req.is_mandatory,
        is_completed: false,
        status: ServiceCampaignStatus::Active,
        created_at: now,
        updated_at: now,
    }
}

/// The catalogue and the result after creating a campaign under `id` at
/// `now`. Article and name must not be empty; the article must be new.
pub open spec fn campaign_creation(
    s: Seq<CampaignView>,
    id: u128,
    now: i64,
    req: CreateServiceCampaignRequest,
) -> (Seq<CampaignView>, Result<CampaignView, RepoError>) {
    if req.article@.len() == 0 || req.name@.len() == 0 {
        (s, Err(RepoError::ValidationFailure))
    } else if has_campaign_article(s, req.article@) || has_key(campaign_ids(s), id) {
        (s, Err(RepoError::Conflict))
    } else {
        (s.push(new_campaign(id, now, req)), Ok(new_campaign(id, now, req)))
    }
}

/// The catalogue and the result after setting the status and campaign-wide
/// flag of campaign `id` at `now`.
pub open spec fn campaign_state_change(
    s: Seq<CampaignView>,
    id: u128,
    status: ServiceCampaignStatus,
    completed: Option<bool>,
    now: i64,
) -> (Seq<CampaignView>, Result<CampaignView, RepoError>) {
    if !has_key(campaign_ids(s), id) {
        (s, Err(RepoError::NotFound))
    } else {
        let i = key_pos(campaign_ids(s), id);
        let c = CampaignView {
            status,
            is_completed: match completed {
                Some(b) => b,
                None => s[i].is_completed,
            },
            updated_at: now,
            ..s[i]
        };
        (s.update(i, c), Ok(c))
    }
}

/// The catalogue and the result after deleting campaign `id`.
pub open spec fn campaign_deletion(s: Seq<CampaignView>, id: u128) -> (Seq<CampaignView>, bool) {
    if has_key(campaign_ids(s), id) {
        (s.remove(key_pos(campaign_ids(s), id)), true)
    } else {
        (s, false)
    }
}

/// The campaign catalogue, held in memory.
pub struct ServiceCampaignRepositoryImpl {
    campaigns: Vec<ServiceCampaign>,
}

impl View for ServiceCampaignRepositoryImpl {
    type V = Seq<CampaignView>;

    closed spec fn view(&self) -> Seq<CampaignView> {
        campaigns_view(self.campaigns@)
    }
}

impl ServiceCampaignRepositoryImpl {
    /// Campaign identifiers are unique.
    pub open spec fn wf(&self) -> bool {
        unique_keys(campaign_ids(self@))
    }

    /// An empty catalogue.
    pub fn new() -> (r: Self)
        ensures
            r.wf(),
            r@ == Seq::<CampaignView>::empty(),
    {
        let r = ServiceCampaignRepositoryImpl { campaigns: Vec::new() };
        assert(r@ =~= Seq::<CampaignView>::empty());
        assert(campaign_ids(r@) =~= Seq::<u128>::empty());
        r
    }

    /// The stored campaigns, in catalogue order.
    pub fn as_slice(&self) -> (r: &[ServiceCampaign])
        ensures
            campaigns_view(r@) == self@,
    {
        self.campaigns.as_slice()
    }

    /// The position of campaign `id`.
    fn position(&self, id: u128) -> (r: Option<usize>)
        requires
            self.wf(),
        ensures
            match r {
                Some(i) => i < self@.len() && has_key(campaign_ids(self@), id) && key_pos(
                    campaign_ids(self@),
                    id,
                ) == i,
                None => !has_key(campaign_ids(self@), id),
            },
    {
        let mut i: usize = 0;
        while i < self.campaigns.len()
            invariant
                i <= self@.len(),
                self@ == campaigns_view(self.campaigns@),
                self.campaigns@.len() == self@.len(),
                self.wf(),
                forall|j: int| 0 <= j < i ==> self@[j].id != id,
            decreases self@.len() - i,
        {
            if self.campaigns[i].id == id {
                proof {
                    lemma_key_pos(campaign_ids(self@), id, i as int);
                }
                return Some(i);
            }
            i += 1;
        }
        proof {
            assert forall|j: int| 0 <= j < campaign_ids(self@).len() implies campaign_ids(
                self@,
            )[j] != id by {
                assert(self@[j].id != id);
            }
        }
        None
    }

    /// All campaigns, in catalogue order.
    pub fn find_all(&self) -> (r: Vec<ServiceCampaign>)
        ensures
            campaigns_view(r@) == self@,
    {
        let mut out: Vec<ServiceCampaign> = Vec::new();
        let mut i: usize = 0;
        while i < self.campaigns.len()
            invariant
                i <= self@.len(),
                self@ == campaigns_view(self.campaigns@),
                self.campaigns@.len() == self@.len(),
                campaigns_view(out@) == self@.take(i as int),
            decreases self@.len() - i,
        {
            let ghost prev = out@;
            out.push(self.campaigns[i].copy());
            assert(campaigns_view(out@) =~= campaigns_view(prev).push(self@[i as int]));
            assert(self@.take(i as int + 1) =~= self@.take(i as int).push(self@[i as int]));
            i += 1;
        }
        assert(self@.take(i as int) =~= self@);
        out
    }

    /// The campaign with this identifier.
    pub fn find_by_id(&self, id: u128) -> (r: Option<ServiceCampaign>)
        requires
            self.wf(),
        ensures
            match r {
                Some(c) => campaign_by_id(self@, id) == Some(c@),
                None => campaign_by_id(self@, id).is_none(),
            },
    {
        match self.position(id) {
            Some(i) => Some(self.campaigns[i].copy()),
            None => None,
        }
    }

    /// The campaign with this article.
    pub fn find_by_article(&self, article: &str) -> (r: Option<ServiceCampaign>)
        ensures
            match r {
                Some(c) => c@.article == article@ && self@.contains(c@),
                None => !has_campaign_article(self@, article@),
            },
    {
        let key = article.to_owned();
        let mut i: usize = 0;
        while i < self.campaigns.len()
            invariant
                i <= self@.len(),
                self@ == campaigns_view(self.campaigns@),
                self.campaigns@.len() == self@.len(),
                key@ == article@,
                forall|j: int| 0 <= j < i ==> self@[j].article != article@,
            decreases self@.len() - i,
        {
            if self.campaigns[i].article == key {
                assert(self@[i as int].article == article@);
                return Some(self.campaigns[i].copy());
            }
            i += 1;
        }
        None
    }

    /// Whether some campaign has this article.
    pub fn exists_by_article(&self, article: &str) -> (r: bool)
        ensures
            r == has_campaign_article(self@, article@),
    {
        self.find_by_article(article).is_some()
    }

    /// The campaigns the filter selects, in catalogue order.
    pub fn find_by(&self, f: &CampaignFilter) -> (r: Vec<ServiceCampaign>)
        ensures
            campaigns_view(r@) == filtered(self@, *f),
    {
        let mut out: Vec<ServiceCampaign> = Vec::new();
        let mut i: usize = 0;
        while i < self.campaigns.len()
            invariant
                i <= self@.len(),
                self@ == campaigns_view(self.campaigns@),
                self.campaigns@.len() == self@.len(),
                campaigns_view(out@) == filtered(self@.take(i as int), *f),
            decreases self@.len() - i,
        {
            let c = &self.campaigns[i];
            let selected = match f {
                CampaignFilter::Brand(b) => c.brand_id == *b,
                CampaignFilter::CarModel(m) => c.car_model_id == *m,
                CampaignFilter::Status(s) => c.status == *s,
                CampaignFilter::Mandatory(b) => c.is_mandatory == *b,
                CampaignFilter::Completed(b) => c.is_completed == *b,
                CampaignFilter::Vin(v) => c.targets_vin(v),
            };
            let ghost prev = out@;
            assert(self@.take(i as int + 1).drop_last() =~= self@.take(i as int));
            if selected {
                out.push(c.copy());
                assert(campaigns_view(out@) =~= campaigns_view(prev).push(self@[i as int]));
            }
            i += 1;
        }
        assert(self@.take(i as int) =~= self@);
        out
    }

    /// The campaigns of a brand.
    pub fn find_by_brand(&self, brand_id: u128) -> (r: Vec<ServiceCampaign>)
        ensures
            campaigns_view(r@) == filtered(self@, CampaignFilter::Brand(brand_id)),
    {
        self.find_by(&CampaignFilter::Brand(brand_id))
    }

    /// The campaigns of a car model.
    pub fn find_by_car_model(&self, car_model_id: u128) -> (r: Vec<ServiceCampaign>)
        ensures
            campaigns_view(r@) == filtered(self@, CampaignFilter::CarModel(car_model_id)),
    {
        self.find_by(&CampaignFilter::CarModel(car_model_id))
    }

    /// The campaigns in a status.
    pub fn find_by_status(&self, status: ServiceCampaignStatus) -> (r: Vec<ServiceCampaign>)
        ensures
            campaigns_view(r@) == filtered(self@, CampaignFilter::Status(status)),
    {
        self.find_by(&CampaignFilter::Status(status))
    }

    /// The campaigns that are, or are not, mandatory.
    pub fn find_by_mandatory(&self, is_mandatory: bool) -> (r: Vec<ServiceCampaign>)
        ensures
            campaigns_view(r@) == filtered(self@, CampaignFilter::Mandatory(is_mandatory)),
    {
        self.find_by(&CampaignFilter::Mandatory(is_mandatory))
    }

    /// The campaigns whose campaign-wide flag is `is_completed`.
    pub fn find_by_completed(&self, is_completed: bool) -> (r: Vec<ServiceCampaign>)
        ensures
            campaigns_view(r@) == filtered(self@, CampaignFilter::Completed(is_completed)),
    {
        self.find_by(&CampaignFilter::Completed(is_completed))
    }

    /// The campaigns that name this VIN among their targets.
    pub fn find_by_vin(&self, vin: String) -> (r: Vec<ServiceCampaign>)
        ensures
            campaigns_view(r@) == filtered(self@, CampaignFilter::Vin(vin)),
    {
        self.find_by(&CampaignFilter::Vin(vin))
    }

    /// Creates a campaign under `id` at `now`, active and not completed.
    pub fn save_at(&mut self, id: u128, now: i64, req: CreateServiceCampaignRequest) -> (r: Result<
        ServiceCampaign,
        RepoError,
    >)
        requires
            old(self).wf(),
        ensures
            final(self).wf(),
            final(self)@ == campaign_creation(old(self)@, id, now, req).0,
            match r {
                Ok(c) => campaign_creation(old(self)@, id, now, req).1 == Ok::<
                    CampaignView,
                    RepoError,
                >(c@),
                Err(e) => campaign_creation(old(self)@, id, now, req).1 == Err::<
                    CampaignView,
                    RepoError,
                >(e),
            },
    {
        if req.article.as_str().is_empty() || req.name.as_str().is_empty() {
            return Err(RepoError::ValidationFailure);
        }
        if self.exists_by_article(req.article.as_str()) || self.position(id).is_some() {
            return Err(RepoError::Conflict);
        }
        let c = ServiceCampaign {
            id,
            article: req.article,
            name: req.name,
            description: req.description,
            brand_id: req.brand_id,
            car_model_id: req.car_model_id,
            target_vins: req.target_vins,
            required_parts: req.required_parts,
            required_works: req.required_works,
            is_mandatory: req.is_mandatory,
            is_completed: false,
            status: ServiceCampaignStatus::Active,
            created_at: now,
            updated_at: now,
        };
        let out = c.copy();
        self.campaigns.push(c);
        proof {
            assert(self@ =~= old(self)@.push(new_campaign(id, now, req)));
            assert(campaign_ids(self@) =~= campaign_ids(old(self)@).push(id));
            lemma_unique_push(campaign_ids(old(self)@), id);
        }
        Ok(out)
    }

    /// An identifier that no stored record has: `candidate` where it is
    /// free, else the least free one.
    fn fresh_id(&self, candidate: u128) -> (r: u128)
        ensures
            !has_key(campaign_ids(self@), r),
    {
        let mut keys: Vec<u128> = Vec::new();
        let mut i: usize = 0;
        while i < self.campaigns.len()
            invariant
                i <= self@.len(),
                self.campaigns@.len() == self@.len(),
                self@ == campaigns_view(self.campaigns@),
                keys@ == campaign_ids(self@.take(i as int)),
            decreases self@.len() - i,
        {
            keys.push(self.campaigns[i].id);
            i += 1;
            assert(keys@ =~= campaign_ids(self@.take(i as int)));
        }
        assert(self@.take(i as int) =~= self@);
        fresh_key(&keys, candidate)
    }

    /// Creates a campaign under a fresh identifier, now.
    pub fn save(&mut self, req: CreateServiceCampaignRequest) -> (r: Result<ServiceCampaign, RepoError>)
        requires
            old(self).wf(),
        ensures
            final(self).wf(),
            exists|id: u128, now: i64|
                !has_key(campaign_ids(old(self)@), id) && {
                    let (s, res) = #[trigger] campaign_creation(old(self)@, id, now, req);
                    &&& final(self)@ == s
                    &&& match r {
                        Ok(c) => res == Ok::<CampaignView, RepoError>(c@),
                        Err(e) => res == Err::<CampaignView, RepoError>(e),
                    }
                },
    {
        let id = self.fresh_id(new_id());
        let now = now_millis();
        self.save_at(id, now, req)
    }

    /// Edits campaign `id` at `now`.
    pub fn update_at(&mut self, id: u128, now: i64, req: UpdateServiceCampaignRequest) -> (r:
        Result<ServiceCampaign, RepoError>)
        requires
            old(self).wf(),
        ensures
            final(self).wf(),
            final(self)@ == campaign_edit(old(self)@, id, now, req).0,
            match r {
                Ok(c) => campaign_edit(old(self)@, id, now, req).1 == Ok::<CampaignView, RepoError>(
                    c@,
                ),
                Err(e) => campaign_edit(old(self)@, id, now, req).1 == Err::<
                    CampaignView,
                    RepoError,
                >(e),
            },
    {
        let ghost r0 = req;
        match self.position(id) {
            None => Err(RepoError::NotFound),
            Some(i) => {
                match &req.article {
                    Some(a) => {
                        if *a != self.campaigns[i].article && self.exists_by_article(a.as_str()) {
                            return Err(RepoError::Conflict);
                        }
                    },
                    None => {},
                }
                let mut c = self.campaigns[i].copy();
                match req.article {
                    Some(a) => {
                        c.article = a;
                    },
                    None => {},
                }
                match req.name {
                    Some(n) => {
                        c.name = n;
                    },
                    None => {},
                }
                match req.description {
                    Some(d) => {
                        c.description = Some(d);
                    },
                    None => {},
                }
                match req.brand_id {
                    Some(b) => {
                        c.brand_id = b;
                    },
                    None => {},
                }
                match req.car_model_id {
                    Some(m) => {
                        c.car_model_id = m;
                    },
                    None => {},
                }
                match req.target_vins {
                    Some(v) => {
                        c.target_vins = v;
                    },
                    None => {},
                }
                match req.required_parts {
                    Some(v) => {
                        c.required_parts = v;
                    },
                    None => {},
                }
                match req.required_works {
                    Some(v) => {
                        c.required_works = v;
                    },
                    None => {},
                }
                match req.is_mandatory {
                    Some(b) => {
                        c.is_mandatory = b;
                    },
                    None => {},
                }
                match req.is_completed {
                    Some(b) => {
                        c.is_completed = b;
                    },
                    None => {},
                }
                match req.status {
                    Some(st) => {
                        c.status = st;
                    },
                    None => {},
                }
                c.updated_at = now;
                assert(c@ == edited_campaign(old(self)@[i as int], r0, now));
                let out = c.copy();
                self.campaigns.set(i, c);
                proof {
                    assert(self@ =~= old(self)@.update(i as int, out@));
                    assert(campaign_ids(self@) =~= campaign_ids(old(self)@));
                }
                Ok(out)
            },
        }
    }

    /// Edits campaign `id`, now.
    pub fn update(&mut self, id: u128, req: UpdateServiceCampaignRequest) -> (r: Result<ServiceCampaign, RepoError>)
        requires
            old(self).wf(),
        ensures
            final(self).wf(),
            exists|now: i64|
                {
                    let (s, res) = #[trigger] campaign_edit(old(self)@, id, now, req);
                    &&& final(self)@ == s
                    &&& match r {
                        Ok(c) => res == Ok::<CampaignView, RepoError>(c@),
                        Err(e) => res == Err::<CampaignView, RepoError>(e),
                    }
                },
    {
        let now = now_millis();
        self.update_at(id, now, req)
    }

    /// Sets the status of campaign `id`, and its campaign-wide flag where
    /// one is given, at `now`.
    pub fn set_state_at(
        &mut self,
        id: u128,
        status: ServiceCampaignStatus,
        completed: Option<bool>,
        now: i64,
    ) -> (r: Result<ServiceCampaign, RepoError>)
        requires
            old(self).wf(),
        ensures
            final(self).wf(),
            final(self)@ == campaign_state_change(old(self)@, id, status, completed, now).0,
            match r {
                Ok(c) => campaign_state_change(old(self)@, id, status, completed, now).1 == Ok::<
                    CampaignView,
                    RepoError,
                >(c@),
                Err(e) => campaign_state_change(old(self)@, id, status, completed, now).1 == Err::<
                    CampaignView,
                    RepoError,
                >(e),
            },
    {
        match self.position(id) {
            None => Err(RepoError::NotFound),
            Some(i) => {
                let mut c = self.campaigns[i].copy();
                c.status = status;
                match completed {
                    Some(b) => {
                        c.is_completed = b;
                    },
                    None => {},
                }
                c.updated_at = now;
                let out = c.copy();
                self.campaigns.set(i, c);
                proof {
                    assert(self@ =~= old(self)@.update(i as int, out@));
                    assert(campaign_ids(self@) =~= campaign_ids(old(self)@));
                }
                Ok(out)
            },
        }
    }

    /// Sets the status of campaign `id`, now.
    pub fn update_status(&mut self, id: u128, status: ServiceCampaignStatus) -> (r: Result<
        ServiceCampaign,
        RepoError,
    >)
        requires
            old(self).wf(),
        ensures
            final(self).wf(),
            exists|now: i64|
                {
                    let (s, res) = #[trigger] campaign_state_change(old(self)@, id, status, None, now);
                    &&& final(self)@ == s
                    &&& match r {
                        Ok(c) => res == Ok::<CampaignView, RepoError>(c@),
                        Err(e) => res == Err::<CampaignView, RepoError>(e),
                    }
                },
    {
        let now = now_millis();
        self.set_state_at(id, status, None, now)
    }

    /// Marks campaign `id` completed campaign-wide, now.
    pub fn mark_completed(&mut self, id: u128) -> (r: Result<ServiceCampaign, RepoError>)
        requires
            old(self).wf(),
        ensures
            final(self).wf(),
            exists|now: i64|
                {
                    let (s, res) = #[trigger] campaign_state_change(old(self)@, id, ServiceCampaignStatus::Completed, Some(true), now);
                    &&& final(self)@ == s
                    &&& match r {
                        Ok(c) => res == Ok::<CampaignView, RepoError>(c@),
                        Err(e) => res == Err::<CampaignView, RepoError>(e),
                    }
                },
    {
        let now = now_millis();
        self.set_state_at(id, ServiceCampaignStatus::Completed, Some(true), now)
    }

    /// Makes campaign `id` active and not completed again, now.
    pub fn mark_pending(&mut self, id: u128) -> (r: Result<ServiceCampaign, RepoError>)
        requires
            old(self).wf(),
        ensures
            final(self).wf(),
            exists|now: i64|
                {
                    let (s, res) = #[trigger] campaign_state_change(old(self)@, id, ServiceCampaignStatus::Active, Some(false), now);
                    &&& final(self)@ == s
                    &&& match r {
                        Ok(c) => res == Ok::<CampaignView, RepoError>(c@),
                        Err(e) => res == Err::<CampaignView, RepoError>(e),
                    }
                },
    {
        let now = now_millis();
        self.set_state_at(id, ServiceCampaignStatus::Active, Some(false), now)
    }

    /// Removes campaign `id`; true where it existed.
    pub fn delete(&mut self, id: u128) -> (r: bool)
        requires
            old(self).wf(),
        ensures
            final(self).wf(),
            (final(self)@, r) == campaign_deletion(old(self)@, id),
    {
        match self.position(id) {
            Some(i) => {
                self.campaigns.remove(i);
                proof {
                    assert(self@ =~= old(self)@.remove(i as int));
                    assert(campaign_ids(self@) =~= campaign_ids(old(self)@).remove(i as int));
                    lemma_unique_remove(campaign_ids(old(self)@), i as int);
                }
                true
            },
            None => false,
        }
    }
}

} // verus!
