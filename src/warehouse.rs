//! The stock ledger: one row per part with its on-hand quantity, the
//! movements that change it, low-stock detection and inventory valuation.

use vstd::prelude::*;
use crate::error::RepoError;
use crate::keys::{fresh_key, has_key, key_pos, lemma_key_pos, lemma_unique_push, lemma_unique_remove, unique_keys};
use crate::part::{PartRepositoryImpl, PartView, part_by_id};
use crate::seqs::lemma_insert_multiset;
use crate::system::{new_id, now_millis};
use crate::text::{contains_ignoring_case, contains_sub, lower_of};

verus! {

/// The default lower threshold of a new row.
pub const DEFAULT_MIN_STOCK_LEVEL: i32 = 0;

/// The default upper threshold of a new row.
pub const DEFAULT_MAX_STOCK_LEVEL: i32 = 100;

/// How a movement changes the quantity on hand.
#[derive(Clone, Copy, Debug, PartialEq, Eq, Structural)]
pub enum StockMovementType {
    /// Adds the amount.
    Incoming,
    /// Takes the amount away, where that much is on hand.
    Outgoing,
    /// Sets the quantity to the amount.
    Adjustment,
}

/// A stock movement: an amount, at least one, and its kind.
#[derive(Clone, Copy, Debug, PartialEq, Eq, Structural)]
pub struct StockMovementRequest {
    pub quantity: i32,
    pub movement_type: StockMovementType,
}

/// A ledger row: the stock of one part.
#[derive(Clone, Debug)]
pub struct WarehouseItem {
    pub id: u128,
    pub part_id: u128,
    pub quantity: i32,
    pub min_stock_level: i32,
    pub max_stock_level: i32,
    pub location: Option<String>,
    pub created_at: i64,
    pub updated_at: i64,
}

impl WarehouseItem {
    /// A field-by-field copy.
    pub fn copy(&self) -> (r: WarehouseItem)
        ensures
            r == *self,
    {
        WarehouseItem {
            id: self.id,
            part_id: self.part_id,
            quantity: self.quantity,
            min_stock_level: self.min_stock_level,
            max_stock_level: self.max_stock_level,
            location: self.location.clone(),
            created_at: self.created_at,
            updated_at: self.updated_at,
        }
    }
}

/// A ledger row together with the article and name of its part.
#[derive(Clone, Debug)]
pub struct WarehouseItemWithPart {
    pub id: u128,
    pub part_id: u128,
    pub part_article: String,
    pub part_name: String,
    pub quantity: i32,
    pub min_stock_level: i32,
    pub max_stock_level: i32,
    pub location: Option<String>,
    pub created_at: i64,
    pub updated_at: i64,
}

/// A joined row as a mathematical value.
pub struct WarehouseRowView {
    pub item: WarehouseItem,
    pub part_article: Seq<char>,
    pub part_name: Seq<char>,
}

impl View for WarehouseItemWithPart {
    type V = WarehouseRowView;

    open spec fn view(&self) -> WarehouseRowView {
        WarehouseRowView {
            item: WarehouseItem {
                id: self.id,
                part_id: self.part_id,
                quantity: self.quantity,
                min_stock_level: self.min_stock_level,
                max_stock_level: self.max_stock_level,
                location: self.location,
                created_at: self.created_at,
                updated_at: self.updated_at,
            },
            part_article: self.part_article@,
            part_name: self.part_name@,
        }
    }
}

/// What a new row is made of; missing thresholds take their defaults.
#[derive(Clone, Debug)]
pub struct CreateWarehouseItemRequest {
    pub part_id: u128,
    pub quantity: i32,
    pub min_stock_level: Option<i32>,
    pub max_stock_level: Option<i32>,
    pub location: Option<String>,
}

/// A direct edit of a row; each field given replaces the stored one.
#[derive(Clone, Debug)]
pub struct UpdateWarehouseItemRequest {
    pub quantity: Option<i32>,
    pub min_stock_level: Option<i32>,
    pub max_stock_level: Option<i32>,
    pub location: Option<String>,
}

/// The value given, or the fallback.
pub open spec fn or_else(o: Option<i32>, d: i32) -> i32 {
    match o {
        Some(v) => v,
        None => d,
    }
}

/// Absent, or not negative.
pub open spec fn non_negative(o: Option<i32>) -> bool {
    match o {
        Some(v) => v >= 0,
        None => true,
    }
}

/// The row identifiers, in ledger order.
pub open spec fn item_ids(s: Seq<WarehouseItem>) -> Seq<u128> {
    s.map_values(|e: WarehouseItem| e.id)
}

/// The part of each row, in ledger order.
pub open spec fn item_part_ids(s: Seq<WarehouseItem>) -> Seq<u128> {
    s.map_values(|e: WarehouseItem| e.part_id)
}

/// Quantity and thresholds are not negative.
pub open spec fn item_valid(e: WarehouseItem) -> bool {
    e.quantity >= 0 && e.min_stock_level >= 0 && e.max_stock_level >= 0
}

/// The ledger's invariant: one row per part, unique row identifiers, and no
/// negative quantity or threshold.
pub open spec fn ledger_wf(s: Seq<WarehouseItem>) -> bool {
    &&& unique_keys(item_ids(s))
    &&& unique_keys(item_part_ids(s))
    &&& forall|i: int| 0 <= i < s.len() ==> item_valid(#[trigger] s[i])
}

/// The row of this part, if any.
pub open spec fn item_by_part(s: Seq<WarehouseItem>, part_id: u128) -> Option<WarehouseItem> {
    if has_key(item_part_ids(s), part_id) {
        Some(s[key_pos(item_part_ids(s), part_id)])
    } else {
        None
    }
}

/// A creation request whose quantity and thresholds are not negative.
pub open spec fn create_request_valid(req: CreateWarehouseItemRequest) -> bool {
    req.quantity >= 0 && non_negative(req.min_stock_level) && non_negative(req.max_stock_level)
}

/// The row that a creation request makes.
pub open spec fn new_item(id: u128, now: i64, req: CreateWarehouseItemRequest) -> WarehouseItem {
    WarehouseItem {
        id,
        part_id: req.part_id,
        quantity: req.quantity,
        min_stock_level: or_else(req.min_stock_level, DEFAULT_MIN_STOCK_LEVEL),
        max_stock_level: or_else(req.max_stock_level, DEFAULT_MAX_STOCK_LEVEL),
        location: req.location,
        created_at: now,
        updated_at: now,
    }
}

/// The ledger and the result after creating a row under `id` at `now`.
pub open spec fn item_creation(
    s: Seq<WarehouseItem>,
    id: u128,
    now: i64,
    req: CreateWarehouseItemRequest,
) -> (Seq<WarehouseItem>, Result<WarehouseItem, RepoError>) {
    if !create_request_valid(req) {
        (s, Err(RepoError::ValidationFailure))
    } else if has_key(item_part_ids(s), req.part_id) || has_key(item_ids(s), id) {
        (s, Err(RepoError::Conflict))
    } else {
        (s.push(new_item(id, now, req)), Ok(new_item(id, now, req)))
    }
}

/// An edit whose values are not negative.
pub open spec fn update_request_valid(req: UpdateWarehouseItemRequest) -> bool {
    non_negative(req.quantity) && non_negative(req.min_stock_level) && non_negative(
        req.max_stock_level,
    )
}

/// A row after an edit at `now`.
pub open spec fn edited_item(e: WarehouseItem, req: UpdateWarehouseItemRequest, now: i64) -> WarehouseItem {
    WarehouseItem {
        quantity: or_else(req.quantity, e.quantity),
        min_stock_level: or_else(req.min_stock_level, e.min_stock_level),
        max_stock_level: or_else(req.max_stock_level, e.max_stock_level),
        location: if req.location.is_some() {
            req.location
        } else {
            e.location
        },
        updated_at: now,
        ..e
    }
}

/// The ledger and the result after editing row `id` at `now`.
pub open spec fn item_edit(
    s: Seq<WarehouseItem>,
    id: u128,
    now: i64,
    req: UpdateWarehouseItemRequest,
) -> (Seq<WarehouseItem>, Result<WarehouseItem, RepoError>) {
    if !update_request_valid(req) {
        (s, Err(RepoError::ValidationFailure))
    } else if !has_key(item_ids(s), id) {
        (s, Err(RepoError::NotFound))
    } else {
        let i = key_pos(item_ids(s), id);
        (s.update(i, edited_item(s[i], req, now)), Ok(edited_item(s[i], req, now)))
    }
}

/// The quantity after a movement from `q`, or none where an outgoing
/// movement asks for more than `q`.
pub open spec fn moved_quantity(q: int, req: StockMovementRequest) -> Option<int> {
    match req.movement_type {
        StockMovementType::Incoming => Some(q + req.quantity),
        StockMovementType::Outgoing => if q >= req.quantity {
            Some(q - req.quantity)
        } else {
            None
        },
        StockMovementType::Adjustment => Some(req.quantity as int),
    }
}

/// The ledger and the result after a movement on the row of `part_id` at
/// `now`. A movement that fails changes nothing.
pub open spec fn stock_movement(
    s: Seq<WarehouseItem>,
    part_id: u128,
    req: StockMovementRequest,
    now: i64,
) -> (Seq<WarehouseItem>, Result<WarehouseItem, RepoError>) {
    if req.quantity < 1 {
        (s, Err(RepoError::ValidationFailure))
    } else if !has_key(item_part_ids(s), part_id) {
        (s, Err(RepoError::NotFound))
    } else {
        let i = key_pos(item_part_ids(s), part_id);
        let e = s[i];
        match moved_quantity(e.quantity as int, req) {
            None => (s, Err(RepoError::InsufficientStock)),
            Some(q) => if q > i32::MAX {
                (s, Err(RepoError::OutOfRange))
            } else {
                let moved = WarehouseItem { quantity: q as i32, updated_at: now, ..e };
                (s.update(i, moved), Ok(moved))
            },
        }
    }
}

/// The ledger and the result after deleting row `id`.
pub open spec fn item_deletion(s: Seq<WarehouseItem>, id: u128) -> (Seq<WarehouseItem>, bool) {
    if has_key(item_ids(s), id) {
        (s.remove(key_pos(item_ids(s), id)), true)
    } else {
        (s, false)
    }
}

/// At or below its lower threshold.
pub open spec fn is_low(e: WarehouseItem) -> bool {
    e.quantity <= e.min_stock_level
}

/// A row joined with its part.
pub open spec fn join_row(e: WarehouseItem, p: PartView) -> WarehouseRowView {
    WarehouseRowView { item: e, part_article: p.article, part_name: p.name }
}

/// The rows whose part is in the catalogue, joined with it, in ledger order;
/// with `low_only`, those at or below their lower threshold only.
pub open spec fn joined_rows(s: Seq<WarehouseItem>, parts: Seq<PartView>, low_only: bool) -> Seq<
    WarehouseRowView,
>
    decreases s.len(),
{
    if s.len() == 0 {
        Seq::empty()
    } else {
        let rest = joined_rows(s.drop_last(), parts, low_only);
        let e = s.last();
        match part_by_id(parts, e.part_id) {
            Some(p) => if !low_only || is_low(e) {
                rest.push(join_row(e, p))
            } else {
                rest
            },
            None => rest,
        }
    }
}

/// A stored location that contains `q`, ignoring letter case. A row with
/// no location matches nothing.
pub open spec fn location_like(location: Option<String>, q: Seq<char>) -> bool {
    match location {
        Some(l) => contains_sub(lower_of(l@), lower_of(q)),
        None => false,
    }
}

/// The joined rows whose location contains `q`, ignoring letter case.
pub open spec fn rows_at_location(rows: Seq<WarehouseRowView>, q: Seq<char>) -> Seq<WarehouseRowView>
    decreases rows.len(),
{
    if rows.len() == 0 {
        Seq::empty()
    } else if location_like(rows.last().item.location, q) {
        rows_at_location(rows.drop_last(), q).push(rows.last())
    } else {
        rows_at_location(rows.drop_last(), q)
    }
}

/// The first joined row whose part has this article.
pub open spec fn first_with_article(rows: Seq<WarehouseRowView>, article: Seq<char>) -> Option<
    WarehouseRowView,
>
    decreases rows.len(),
{
    if rows.len() == 0 {
        None
    } else if rows[0].part_article == article {
        Some(rows[0])
    } else {
        first_with_article(rows.drop_first(), article)
    }
}

/// The value of each joined row.
pub open spec fn rows_view(v: Seq<WarehouseItemWithPart>) -> Seq<WarehouseRowView> {
    v.map_values(|r: WarehouseItemWithPart| r@)
}

/// Most depleted first.
pub open spec fn ascending_by_quantity(s: Seq<WarehouseRowView>) -> bool {
    forall|i: int, j: int| 0 <= i < j < s.len() ==> s[i].item.quantity <= s[j].item.quantity
}

/// The sum of quantity times purchase price over the rows whose part is in
/// the catalogue.
pub open spec fn stock_value(s: Seq<WarehouseItem>, parts: Seq<PartView>) -> int
    decreases s.len(),
{
    if s.len() == 0 {
        0
    } else {
        stock_value(s.drop_last(), parts) + match part_by_id(parts, s.last().part_id) {
            Some(p) => s.last().quantity * p.purchase_price,
            None => 0,
        }
    }
}

/// Over a ledger with no negative quantity, a prefix is worth no more than a
/// longer one.
pub proof fn lemma_stock_value_monotone(s: Seq<WarehouseItem>, parts: Seq<PartView>, i: int, j: int)
    requires
        0 <= i <= j <= s.len(),
        forall|k: int| 0 <= k < s.len() ==> (#[trigger] s[k]).quantity >= 0,
    ensures
        stock_value(s.take(i), parts) <= stock_value(s.take(j), parts),
    decreases j - i,
{
    if i < j {
        lemma_stock_value_monotone(s, parts, i, j - 1);
        assert(s.take(j).drop_last() =~= s.take(j - 1));
        let e = s[j - 1];
        match part_by_id(parts, e.part_id) {
            Some(p) => {
                assert(e.quantity * p.purchase_price >= 0) by (nonlinear_arith)
                    requires
                        e.quantity >= 0,
                ;
            },
            None => {},
        }
    }
}

/// The stock ledger, held in memory. Every operation is one step on the
/// stored rows, so a check and the update it guards cannot be split by
/// another operation.
pub struct WarehouseRepositoryImpl {
    items: Vec<WarehouseItem>,
}

impl View for WarehouseRepositoryImpl {
    type V = Seq<WarehouseItem>;

    closed spec fn view(&self) -> Seq<WarehouseItem> {
        self.items@
    }
}

impl WarehouseRepositoryImpl {
    pub open spec fn wf(&self) -> bool {
        ledger_wf(self@)
    }

    /// An empty ledger.
    pub fn new() -> (r: Self)
        ensures
            r.wf(),
            r@ == Seq::<WarehouseItem>::empty(),
    {
        let r = WarehouseRepositoryImpl { items: Vec::new() };
        assert(item_ids(r@) =~= Seq::<u128>::empty());
        assert(item_part_ids(r@) =~= Seq::<u128>::empty());
        r
    }

    /// The position of row `id`.
    fn position_by_id(&self, id: u128) -> (r: Option<usize>)
        requires
            self.wf(),
        ensures
            match r {
                Some(i) => i < self@.len() && has_key(item_ids(self@), id) && key_pos(
                    item_ids(self@),
                    id,
                ) == i,
                None => !has_key(item_ids(self@), id),
            },
    {
        let mut i: usize = 0;
        while i < self.items.len()
            invariant
                i <= self@.len(),
                self.items@ == self@,
                self.wf(),
                forall|j: int| 0 <= j < i ==> self@[j].id != id,
            decreases self@.len() - i,
        {
            if self.items[i].id == id {
                proof {
                    lemma_key_pos(item_ids(self@), id, i as int);
                }
                return Some(i);
            }
            i += 1;
        }
        proof {
            assert forall|j: int| 0 <= j < item_ids(self@).len() implies item_ids(self@)[j]
                != id by {
                assert(self@[j].id != id);
            }
        }
        None
    }

    /// The position of the row of `part_id`.
    fn position_by_part(&self, part_id: u128) -> (r: Option<usize>)
        requires
            self.wf(),
        ensures
            match r {
                Some(i) => i < self@.len() && has_key(item_part_ids(self@), part_id) && key_pos(
                    item_part_ids(self@),
                    part_id,
                ) == i,
                None => !has_key(item_part_ids(self@), part_id),
            },
    {
        let mut i: usize = 0;
        while i < self.items.len()
            invariant
                i <= self@.len(),
                self.items@ == self@,
                self.wf(),
                forall|j: int| 0 <= j < i ==> self@[j].part_id != part_id,
            decreases self@.len() - i,
        {
            if self.items[i].part_id == part_id {
                proof {
                    lemma_key_pos(item_part_ids(self@), part_id, i as int);
                }
                return Some(i);
            }
            i += 1;
        }
        proof {
            assert forall|j: int| 0 <= j < item_part_ids(self@).len() implies item_part_ids(
                self@,
            )[j] != part_id by {
                assert(self@[j].part_id != part_id);
            }
        }
        None
    }

    /// Joins a row with its part, where the part is in the catalogue.
    fn join(e: &WarehouseItem, parts: &PartRepositoryImpl) -> (r: Option<WarehouseItemWithPart>)
        requires
            parts.wf(),
        ensures
            match part_by_id(parts@, e.part_id) {
                Some(p) => r.is_some() && r.unwrap()@ == join_row(*e, p),
                None => r.is_none(),
            },
    {
        match parts.find_by_id(e.part_id) {
            Some(p) => Some(
                WarehouseItemWithPart {
                    id: e.id,
                    part_id: e.part_id,
                    part_article: p.article,
                    part_name: p.name,
                    quantity: e.quantity,
                    min_stock_level: e.min_stock_level,
                    max_stock_level: e.max_stock_level,
                    location: e.location.clone(),
                    created_at: e.created_at,
                    updated_at: e.updated_at,
                },
            ),
            None => None,
        }
    }

    /// The joined rows in ledger order; with `low_only`, only those at or
    /// below their lower threshold.
    fn joined(&self, parts: &PartRepositoryImpl, low_only: bool) -> (r: Vec<WarehouseItemWithPart>)
        requires
            parts.wf(),
        ensures
            rows_view(r@) == joined_rows(self@, parts@, low_only),
    {
        let mut out: Vec<WarehouseItemWithPart> = Vec::new();
        let mut i: usize = 0;
        while i < self.items.len()
            invariant
                i <= self@.len(),
                self.items@ == self@,
                parts.wf(),
                rows_view(out@) == joined_rows(self@.take(i as int), parts@, low_only),
            decreases self@.len() - i,
        {
            let ghost prev = out@;
            let e = &self.items[i];
            assert(self@.take(i as int + 1).drop_last() =~= self@.take(i as int));
            if !low_only || e.quantity <= e.min_stock_level {
                match Self::join(e, parts) {
                    Some(row) => {
                        out.push(row);
                        assert(rows_view(out@) =~= rows_view(prev).push(join_row(*e, part_by_id(parts@, e.part_id).unwrap())));
                    },
                    None => {},
                }
            }
            i += 1;
        }
        assert(self@.take(i as int) =~= self@);
        out
    }

    /// All rows whose part is in the catalogue, joined with it, in ledger
    /// order.
    pub fn find_all(&self, parts: &PartRepositoryImpl) -> (r: Vec<WarehouseItemWithPart>)
        requires
            parts.wf(),
        ensures
            rows_view(r@) == joined_rows(self@, parts@, false),
    {
        self.joined(parts, false)
    }

    /// The rows at or below their lower threshold, joined with their part,
    /// most depleted first.
    pub fn find_all_with_low_stock(&self, parts: &PartRepositoryImpl) -> (r: Vec<
        WarehouseItemWithPart,
    >)
        requires
            parts.wf(),
        ensures
            ascending_by_quantity(rows_view(r@)),
            rows_view(r@).to_multiset() == joined_rows(self@, parts@, true).to_multiset(),
    {
        let rows = self.joined(parts, true);
        let mut sorted: Vec<WarehouseItemWithPart> = Vec::new();
        let mut i: usize = 0;
        assert(rows_view(sorted@) =~= rows_view(rows@.take(0)));
        while i < rows.len()
            invariant
                i <= rows@.len(),
                ascending_by_quantity(rows_view(sorted@)),
                rows_view(sorted@).to_multiset() == rows_view(rows@.take(i as int)).to_multiset(),
            decreases rows@.len() - i,
        {
            let row = rows[i].clone_row();
            insert_by_quantity(&mut sorted, row);
            proof {
                broadcast use vstd::seq_lib::group_to_multiset_ensures;
                assert(rows_view(rows@.take(i as int + 1)) =~= rows_view(rows@.take(i as int)).push(
                    rows@[i as int]@,
                ));
            }
            i += 1;
        }
        assert(rows@.take(i as int) =~= rows@);
        sorted
    }

    /// The first row, in ledger order, whose part has this article, joined
    /// with its part.
    pub fn find_by_article(&self, article: &str, parts: &PartRepositoryImpl) -> (r: Option<
        WarehouseItemWithPart,
    >)
        requires
            parts.wf(),
        ensures
            match first_with_article(joined_rows(self@, parts@, false), article@) {
                Some(v) => r.is_some() && r.unwrap()@ == v,
                None => r.is_none(),
            },
    {
        let rows = self.joined(parts, false);
        let key = article.to_owned();
        let ghost all = rows_view(rows@);
        let mut i: usize = 0;
        assert(all.skip(0) =~= all);
        while i < rows.len()
            invariant
                i <= rows@.len(),
                all == rows_view(rows@),
                all == joined_rows(self@, parts@, false),
                key@ == article@,
                first_with_article(all, article@) == first_with_article(all.skip(i as int), article@),
            decreases rows@.len() - i,
        {
            assert(all.skip(i as int)[0] == rows@[i as int]@);
            assert(all.skip(i as int).drop_first() =~= all.skip(i as int + 1));
            if rows[i].part_article == key {
                assert(all.skip(i as int).len() > 0);
                assert(first_with_article(all.skip(i as int), article@) == Some(all[i as int]));
                let row = rows[i].clone_row();
                assert(row@ == all[i as int]);
                return Some(row);
            }
            i += 1;
        }
        assert(all.skip(i as int).len() == 0);
        None
    }

    /// The rows whose location contains `location`, ignoring letter case,
    /// joined with their part, in ledger order.
    pub fn find_by_location(&self, location: &str, parts: &PartRepositoryImpl) -> (r: Vec<
        WarehouseItemWithPart,
    >)
        requires
            parts.wf(),
        ensures
            rows_view(r@) == rows_at_location(joined_rows(self@, parts@, false), location@),
    {
        let rows = self.joined(parts, false);
        let ghost all = rows_view(rows@);
        let mut out: Vec<WarehouseItemWithPart> = Vec::new();
        let mut i: usize = 0;
        while i < rows.len()
            invariant
                i <= rows@.len(),
                all == rows_view(rows@),
                all == joined_rows(self@, parts@, false),
                rows_view(out@) == rows_at_location(all.take(i as int), location@),
            decreases rows@.len() - i,
        {
            let ghost prev = out@;
            assert(all.take(i as int + 1).drop_last() =~= all.take(i as int));
            let selected = match &rows[i].location {
                Some(l) => contains_ignoring_case(l.as_str(), location),
                None => false,
            };
            if selected {
                out.push(rows[i].clone_row());
                assert(rows_view(out@) =~= rows_view(prev).push(all[i as int]));
            }
            i += 1;
        }
        assert(all.take(i as int) =~= all);
        out
    }

    /// The row `id`, joined with its part.
    pub fn find_by_id(&self, id: u128, parts: &PartRepositoryImpl) -> (r: Option<
        WarehouseItemWithPart,
    >)
        requires
            self.wf(),
            parts.wf(),
        ensures
            match r {
                Some(row) => has_key(item_ids(self@), id) && exists|p: PartView|
                    part_by_id(parts@, self@[key_pos(item_ids(self@), id)].part_id) == Some(p)
                        && row@ == join_row(self@[key_pos(item_ids(self@), id)], p),
                None => !has_key(item_ids(self@), id) || part_by_id(
                    parts@,
                    self@[key_pos(item_ids(self@), id)].part_id,
                ).is_none(),
            },
    {
        match self.position_by_id(id) {
            Some(i) => Self::join(&self.items[i], parts),
            None => None,
        }
    }

    /// The row of this part.
    pub fn find_by_part_id(&self, part_id: u128) -> (r: Option<WarehouseItem>)
        requires
            self.wf(),
        ensures
            r == item_by_part(self@, part_id),
    {
        match self.position_by_part(part_id) {
            Some(i) => Some(self.items[i].copy()),
            None => None,
        }
    }

    /// Whether the part has a row.
    pub fn exists_by_part_id(&self, part_id: u128) -> (r: bool)
        requires
            self.wf(),
        ensures
            r == has_key(item_part_ids(self@), part_id),
    {
        self.position_by_part(part_id).is_some()
    }

    /// Creates the row of a part under `id`, at `now`. Refused where the part
    /// already has a row.
    pub fn save_at(&mut self, id: u128, now: i64, req: &CreateWarehouseItemRequest) -> (r: Result<
        WarehouseItem,
        RepoError,
    >)
        requires
            old(self).wf(),
        ensures
            final(self).wf(),
            (final(self)@, r) == item_creation(old(self)@, id, now, *req),
    {
        let valid = req.quantity >= 0 && match req.min_stock_level {
            Some(v) => v >= 0,
            None => true,
        } && match req.max_stock_level {
            Some(v) => v >= 0,
            None => true,
        };
        if !valid {
            return Err(RepoError::ValidationFailure);
        }
        if self.position_by_part(req.part_id).is_some() || self.position_by_id(id).is_some() {
            return Err(RepoError::Conflict);
        }
        let item = WarehouseItem {
            id,
            part_id: req.part_id,
            quantity: req.quantity,
            min_stock_level: match req.min_stock_level {
                Some(v) => v,
                None => DEFAULT_MIN_STOCK_LEVEL,
            },
            max_stock_level: match req.max_stock_level {
                Some(v) => v,
                None => DEFAULT_MAX_STOCK_LEVEL,
            },
            location: req.location.clone(),
            created_at: now,
            updated_at: now,
        };
        let out = item.copy();
        self.items.push(item);
        proof {
            assert(item_ids(self@) =~= item_ids(old(self)@).push(id));
            assert(item_part_ids(self@) =~= item_part_ids(old(self)@).push(req.part_id));
            lemma_unique_push(item_ids(old(self)@), id);
            lemma_unique_push(item_part_ids(old(self)@), req.part_id);
        }
        Ok(out)
    }

    /// The row identifiers, in ledger order.
    fn row_ids(&self) -> (r: Vec<u128>)
        ensures
            r@ == item_ids(self@),
    {
        let mut out: Vec<u128> = Vec::new();
        let mut i: usize = 0;
        while i < self.items.len()
            invariant
                i <= self@.len(),
                self.items@ == self@,
                out@ == item_ids(self@.take(i as int)),
            decreases self@.len() - i,
        {
            out.push(self.items[i].id);
            i += 1;
            assert(out@ =~= item_ids(self@.take(i as int)));
        }
        assert(self@.take(i as int) =~= self@);
        out
    }

    /// Creates the row of a part now, under a random identifier, or the least
    /// free one where the random one is taken. So `Conflict` comes only where
    /// the part already has a row.
    pub fn save(&mut self, req: &CreateWarehouseItemRequest) -> (r: Result<WarehouseItem, RepoError>)
        requires
            old(self).wf(),
        ensures
            final(self).wf(),
            exists|id: u128, now: i64|
                !has_key(item_ids(old(self)@), id) && (final(self)@, r) == #[trigger] item_creation(
                    old(self)@,
                    id,
                    now,
                    *req,
                ),
    {
        let ids = self.row_ids();
        let id = fresh_key(&ids, new_id());
        let now = now_millis();
        assert(!has_key(item_ids(self@), id));
        self.save_at(id, now, req)
    }

    /// Edits row `id` at `now`.
    pub fn update_at(&mut self, id: u128, now: i64, req: &UpdateWarehouseItemRequest) -> (r: Result<
        WarehouseItem,
        RepoError,
    >)
        requires
            old(self).wf(),
        ensures
            final(self).wf(),
            (final(self)@, r) == item_edit(old(self)@, id, now, *req),
    {
        let valid = match req.quantity {
            Some(v) => v >= 0,
            None => true,
        } && match req.min_stock_level {
            Some(v) => v >= 0,
            None => true,
        } && match req.max_stock_level {
            Some(v) => v >= 0,
            None => true,
        };
        if !valid {
            return Err(RepoError::ValidationFailure);
        }
        match self.position_by_id(id) {
            None => Err(RepoError::NotFound),
            Some(i) => {
                let e = &self.items[i];
                let edited = WarehouseItem {
                    id: e.id,
                    part_id: e.part_id,
                    quantity: match req.quantity {
                        Some(v) => v,
                        None => e.quantity,
                    },
                    min_stock_level: match req.min_stock_level {
                        Some(v) => v,
                        None => e.min_stock_level,
                    },
                    max_stock_level: match req.max_stock_level {
                        Some(v) => v,
                        None => e.max_stock_level,
                    },
                    location: match &req.location {
                        Some(l) => Some(l.clone()),
                        None => e.location.clone(),
                    },
                    created_at: e.created_at,
                    updated_at: now,
                };
                let out = edited.copy();
                self.items.set(i, edited);
                proof {
                    assert(item_ids(self@) =~= item_ids(old(self)@));
                    assert(item_part_ids(self@) =~= item_part_ids(old(self)@));
                }
                Ok(out)
            },
        }
    }

    /// Edits row `id`, now.
    pub fn update(&mut self, id: u128, req: &UpdateWarehouseItemRequest) -> (r: Result<
        WarehouseItem,
        RepoError,
    >)
        requires
            old(self).wf(),
        ensures
            final(self).wf(),
            exists|now: i64| (final(self)@, r) == #[trigger] item_edit(old(self)@, id, now, *req),
    {
        let now = now_millis();
        self.update_at(id, now, req)
    }

    /// Removes row `id`; true where it existed.
    pub fn delete(&mut self, id: u128) -> (r: bool)
        requires
            old(self).wf(),
        ensures
            final(self).wf(),
            (final(self)@, r) == item_deletion(old(self)@, id),
    {
        match self.position_by_id(id) {
            Some(i) => {
                self.items.remove(i);
                proof {
                    assert(item_ids(self@) =~= item_ids(old(self)@).remove(i as int));
                    assert(item_part_ids(self@) =~= item_part_ids(old(self)@).remove(i as int));
                    lemma_unique_remove(item_ids(old(self)@), i as int);
                    lemma_unique_remove(item_part_ids(old(self)@), i as int);
                }
                true
            },
            None => false,
        }
    }

    /// Applies a stock movement to the row of `part_id` at `now`. The check
    /// on the quantity on hand and the update are one step; a refused
    /// movement leaves the ledger unchanged.
    pub fn update_stock_at(&mut self, part_id: u128, req: &StockMovementRequest, now: i64) -> (r:
        Result<WarehouseItem, RepoError>)
        requires
            old(self).wf(),
        ensures
            final(self).wf(),
            forall|i: int| 0 <= i < final(self)@.len() ==> (#[trigger] final(self)@[i]).quantity >= 0,
            (final(self)@, r) == stock_movement(old(self)@, part_id, *req, now),
    {
        if req.quantity < 1 {
            return Err(RepoError::ValidationFailure);
        }
        match self.position_by_part(part_id) {
            None => Err(RepoError::NotFound),
            Some(i) => {
                let e = &self.items[i];
                let q: i64 = match req.movement_type {
                    StockMovementType::Incoming => e.quantity as i64 + req.quantity as i64,
                    StockMovementType::Outgoing => {
                        if e.quantity < req.quantity {
                            return Err(RepoError::InsufficientStock);
                        }
                        e.quantity as i64 - req.quantity as i64
                    },
                    StockMovementType::Adjustment => req.quantity as i64,
                };
                if q > i32::MAX as i64 {
                    return Err(RepoError::OutOfRange);
                }
                let moved = WarehouseItem {
                    id: e.id,
                    part_id: e.part_id,
                    quantity: q as i32,
                    min_stock_level: e.min_stock_level,
                    max_stock_level: e.max_stock_level,
                    location: e.location.clone(),
                    created_at: e.created_at,
                    updated_at: now,
                };
                let out = moved.copy();
                self.items.set(i, moved);
                proof {
                    assert(item_ids(self@) =~= item_ids(old(self)@));
                    assert(item_part_ids(self@) =~= item_part_ids(old(self)@));
                }
                Ok(out)
            },
        }
    }

    /// Applies a stock movement to the row of `part_id`, now.
    pub fn update_stock(&mut self, part_id: u128, req: &StockMovementRequest) -> (r: Result<
        WarehouseItem,
        RepoError,
    >)
        requires
            old(self).wf(),
        ensures
            final(self).wf(),
            forall|i: int| 0 <= i < final(self)@.len() ==> (#[trigger] final(self)@[i]).quantity >= 0,
            exists|now: i64|
                (final(self)@, r) == #[trigger] stock_movement(old(self)@, part_id, *req, now),
    {
        let now = now_millis();
        self.update_stock_at(part_id, req, now)
    }

    /// The worth of the stock: quantity times purchase price, summed over the
    /// rows whose part is in the catalogue; zero for an empty ledger. Fails
    /// only where the sum exceeds `u128::MAX`.
    pub fn get_total_value(&self, parts: &PartRepositoryImpl) -> (r: Result<u128, RepoError>)
        requires
            self.wf(),
            parts.wf(),
        ensures
            stock_value(self@, parts@) <= u128::MAX ==> r == Ok::<u128, RepoError>(
                stock_value(self@, parts@) as u128,
            ),
            stock_value(self@, parts@) > u128::MAX ==> r == Err::<u128, RepoError>(
                RepoError::OutOfRange,
            ),
    {
        let mut total: u128 = 0;
        let mut i: usize = 0;
        while i < self.items.len()
            invariant
                i <= self@.len(),
                self.items@ == self@,
                self.wf(),
                parts.wf(),
                total == stock_value(self@.take(i as int), parts@),
            decreases self@.len() - i,
        {
            let e = &self.items[i];
            assert(self@.take(i as int + 1).drop_last() =~= self@.take(i as int));
            assert(item_valid(self@[i as int]));
            match parts.find_by_id(e.part_id) {
                Some(p) => {
                    let q = e.quantity as u128;
                    let price = p.purchase_price as u128;
                    assert(q * price <= 0x7fff_ffff * 0xffff_ffff_ffff_ffff) by (nonlinear_arith)
                        requires
                            q <= 0x7fff_ffff,
                            price <= 0xffff_ffff_ffff_ffff,
                    ;
                    let term = q * price;
                    if total > u128::MAX - term {
                        proof {
                            lemma_stock_value_monotone(self@, parts@, i as int + 1, self@.len() as int);
                            assert(self@.take(self@.len() as int) =~= self@);
                        }
                        return Err(RepoError::OutOfRange);
                    }
                    total = total + term;
                },
                None => {},
            }
            i += 1;
        }
        assert(self@.take(i as int) =~= self@);
        Ok(total)
    }
}

impl WarehouseItemWithPart {
    /// A field-by-field copy.
    pub fn clone_row(&self) -> (r: WarehouseItemWithPart)
        ensures
            r@ == self@,
    {
        WarehouseItemWithPart {
            id: self.id,
            part_id: self.part_id,
            part_article: self.part_article.clone(),
            part_name: self.part_name.clone(),
            quantity: self.quantity,
            min_stock_level: self.min_stock_level,
            max_stock_level: self.max_stock_level,
            location: self.location.clone(),
            created_at: self.created_at,
            updated_at: self.updated_at,
        }
    }
}

/// Inserts a joined row after every row of no greater quantity, keeping the
/// order ascending.
fn insert_by_quantity(v: &mut Vec<WarehouseItemWithPart>, x: WarehouseItemWithPart)
    requires
        ascending_by_quantity(rows_view(old(v)@)),
    ensures
        ascending_by_quantity(rows_view(final(v)@)),
        rows_view(final(v)@).to_multiset() == rows_view(old(v)@).to_multiset().insert(x@),
{
    let mut k: usize = 0;
    while k < v.len() && v[k].quantity <= x.quantity
        invariant
            k <= v@.len(),
            v@ == old(v)@,
            ascending_by_quantity(rows_view(v@)),
            forall|j: int| 0 <= j < k ==> v@[j].quantity <= x.quantity,
        decreases v@.len() - k,
    {
        k += 1;
    }
    let ghost before = v@;
    let ghost xv = x@;
    v.insert(k, x);
    proof {
        assert(rows_view(v@) =~= rows_view(before).insert(k as int, xv));
        lemma_insert_multiset(rows_view(before), k as int, xv);
        let s = rows_view(v@);
        assert forall|i: int, j: int| 0 <= i < j < s.len() implies s[i].item.quantity
            <= s[j].item.quantity by {
            if j < k {
                assert(rows_view(before)[i].item.quantity <= rows_view(before)[j].item.quantity);
            } else if j == k {
                assert(before[i].quantity <= xv.item.quantity);
            } else if i < k {
                assert(before[i].quantity <= xv.item.quantity);
                assert(before[k as int].quantity > xv.item.quantity);
                assert(rows_view(before)[k as int].item.quantity <= rows_view(before)[j - 1].item.quantity);
            } else if i == k {
                assert(before[k as int].quantity > xv.item.quantity);
                assert(rows_view(before)[k as int].item.quantity <= rows_view(before)[j - 1].item.quantity);
            } else {
                assert(rows_view(before)[i - 1].item.quantity <= rows_view(before)[j - 1].item.quantity);
            }
        }
    }
}

} // verus!
