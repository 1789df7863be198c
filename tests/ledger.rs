use autodealer::error::RepoError;
use autodealer::part::{CreatePartRequest, PartRepositoryImpl};
use autodealer::warehouse::{
    CreateWarehouseItemRequest, StockMovementRequest, StockMovementType,
    UpdateWarehouseItemRequest, WarehouseRepositoryImpl,
};

fn part_request(article: &str, price: u64) -> CreatePartRequest {
    CreatePartRequest {
        article: article.to_string(),
        name: format!("Part {}", article),
        brand_id: 1,
        car_model_id: 2,
        purchase_price: price,
        sale_price: price * 2,
        compatible_vins: vec![],
    }
}

fn entry(part_id: u128, quantity: i32, min: Option<i32>) -> CreateWarehouseItemRequest {
    CreateWarehouseItemRequest {
        part_id,
        quantity,
        min_stock_level: min,
        max_stock_level: None,
        location: Some("A-1".to_string()),
    }
}

fn movement(quantity: i32, movement_type: StockMovementType) -> StockMovementRequest {
    StockMovementRequest { quantity, movement_type }
}

fn setup() -> (PartRepositoryImpl, WarehouseRepositoryImpl) {
    let mut parts = PartRepositoryImpl::new();
    parts.save_at(100, 1, part_request("P-100", 250)).unwrap();
    let mut ledger = WarehouseRepositoryImpl::new();
    ledger.save_at(1, 10, &entry(100, 10, Some(5))).unwrap();
    (parts, ledger)
}

#[test]
fn outgoing_beyond_stock_is_rejected() {
    let (_parts, mut ledger) = setup();
    let r = ledger.update_stock_at(100, &movement(12, StockMovementType::Outgoing), 20);
    assert_eq!(r.unwrap_err(), RepoError::InsufficientStock);
    let item = ledger.find_by_part_id(100).unwrap();
    assert_eq!(item.quantity, 10);
    assert_eq!(item.updated_at, 10);
}

#[test]
fn outgoing_to_zero_shows_in_low_stock() {
    let (parts, mut ledger) = setup();
    assert!(ledger.find_all_with_low_stock(&parts).is_empty());
    let item = ledger
        .update_stock_at(100, &movement(10, StockMovementType::Outgoing), 20)
        .unwrap();
    assert_eq!(item.quantity, 0);
    assert_eq!(item.updated_at, 20);
    let low = ledger.find_all_with_low_stock(&parts);
    assert_eq!(low.len(), 1);
    assert_eq!(low[0].part_id, 100);
    assert_eq!(low[0].quantity, 0);
    assert_eq!(low[0].part_article, "P-100");
}

#[test]
fn adjustment_sets_absolute_quantity() {
    let (_parts, mut ledger) = setup();
    let a = ledger.update_stock_at(100, &movement(5, StockMovementType::Incoming), 20).unwrap();
    assert_eq!(a.quantity, 15);
    let b = ledger.update_stock_at(100, &movement(3, StockMovementType::Adjustment), 30).unwrap();
    assert_eq!(b.quantity, 3);
}

#[test]
fn movement_amount_below_one_is_invalid() {
    let (_parts, mut ledger) = setup();
    let r = ledger.update_stock_at(100, &movement(0, StockMovementType::Incoming), 20);
    assert_eq!(r.unwrap_err(), RepoError::ValidationFailure);
    let r = ledger.update_stock_at(100, &movement(-3, StockMovementType::Adjustment), 20);
    assert_eq!(r.unwrap_err(), RepoError::ValidationFailure);
    assert_eq!(ledger.find_by_part_id(100).unwrap().quantity, 10);
}

#[test]
fn movement_on_unknown_part_is_not_found() {
    let (_parts, mut ledger) = setup();
    let r = ledger.update_stock_at(999, &movement(1, StockMovementType::Incoming), 20);
    assert_eq!(r.unwrap_err(), RepoError::NotFound);
}

#[test]
fn incoming_past_integer_limit_is_out_of_range() {
    let (_parts, mut ledger) = setup();
    let r = ledger.update_stock_at(100, &movement(i32::MAX, StockMovementType::Incoming), 20);
    assert_eq!(r.unwrap_err(), RepoError::OutOfRange);
    assert_eq!(ledger.find_by_part_id(100).unwrap().quantity, 10);
}

#[test]
fn quantity_never_negative_after_many_outgoing() {
    let (_parts, mut ledger) = setup();
    for t in 0..20 {
        let _ = ledger.update_stock_at(100, &movement(3, StockMovementType::Outgoing), t);
        assert!(ledger.find_by_part_id(100).unwrap().quantity >= 0);
    }
    assert_eq!(ledger.find_by_part_id(100).unwrap().quantity, 1);
}

#[test]
fn second_entry_for_part_conflicts() {
    let (_parts, mut ledger) = setup();
    let r = ledger.save_at(2, 11, &entry(100, 1, None));
    assert_eq!(r.unwrap_err(), RepoError::Conflict);
    let r = ledger.save_at(1, 11, &entry(101, 1, None));
    assert_eq!(r.unwrap_err(), RepoError::Conflict);
}

#[test]
fn negative_quantity_or_threshold_is_invalid() {
    let mut ledger = WarehouseRepositoryImpl::new();
    assert_eq!(ledger.save_at(1, 1, &entry(5, -1, None)).unwrap_err(), RepoError::ValidationFailure);
    assert_eq!(ledger.save_at(1, 1, &entry(5, 1, Some(-2))).unwrap_err(), RepoError::ValidationFailure);
    assert!(ledger.find_by_part_id(5).is_none());
}

#[test]
fn new_entry_takes_default_thresholds() {
    let mut ledger = WarehouseRepositoryImpl::new();
    let item = ledger.save_at(7, 3, &entry(5, 4, None)).unwrap();
    assert_eq!(item.min_stock_level, 0);
    assert_eq!(item.max_stock_level, 100);
    assert_eq!(item.created_at, 3);
    assert_eq!(item.updated_at, 3);
    assert!(ledger.exists_by_part_id(5));
}

#[test]
fn low_stock_lists_most_depleted_first() {
    let mut parts = PartRepositoryImpl::new();
    let mut ledger = WarehouseRepositoryImpl::new();
    for (k, q) in [(1u128, 4), (2, 1), (3, 50), (4, 3)] {
        parts.save_at(k, 0, part_request(&format!("A{}", k), 10)).unwrap();
        ledger.save_at(100 + k, 0, &entry(k, q, Some(5))).unwrap();
    }
    let low = ledger.find_all_with_low_stock(&parts);
    let qs: Vec<i32> = low.iter().map(|r| r.quantity).collect();
    assert_eq!(qs, vec![1, 3, 4]);
}

#[test]
fn low_stock_at_threshold_is_included() {
    let (parts, mut ledger) = setup();
    ledger.update_stock_at(100, &movement(5, StockMovementType::Outgoing), 20).unwrap();
    assert_eq!(ledger.find_all_with_low_stock(&parts).len(), 1);
}

#[test]
fn total_value_sums_quantity_times_price() {
    let mut parts = PartRepositoryImpl::new();
    let mut ledger = WarehouseRepositoryImpl::new();
    assert_eq!(ledger.get_total_value(&parts), Ok(0));
    parts.save_at(1, 0, part_request("A", 250)).unwrap();
    parts.save_at(2, 0, part_request("B", 1000)).unwrap();
    ledger.save_at(11, 0, &entry(1, 4, None)).unwrap();
    ledger.save_at(12, 0, &entry(2, 3, None)).unwrap();
    ledger.save_at(13, 0, &entry(3, 7, None)).unwrap();
    assert_eq!(ledger.get_total_value(&parts), Ok(4 * 250 + 3 * 1000));
}

#[test]
fn edit_replaces_given_fields_only() {
    let (_parts, mut ledger) = setup();
    let req = UpdateWarehouseItemRequest {
        quantity: None,
        min_stock_level: Some(2),
        max_stock_level: None,
        location: Some("B-7".to_string()),
    };
    let item = ledger.update_at(1, 40, &req).unwrap();
    assert_eq!(item.quantity, 10);
    assert_eq!(item.min_stock_level, 2);
    assert_eq!(item.max_stock_level, 100);
    assert_eq!(item.location.as_deref(), Some("B-7"));
    assert_eq!(item.updated_at, 40);
    let bad = UpdateWarehouseItemRequest { quantity: Some(-1), min_stock_level: None, max_stock_level: None, location: None };
    assert_eq!(ledger.update_at(1, 41, &bad).unwrap_err(), RepoError::ValidationFailure);
    let ok = UpdateWarehouseItemRequest { quantity: Some(1), min_stock_level: None, max_stock_level: None, location: None };
    assert_eq!(ledger.update_at(77, 41, &ok).unwrap_err(), RepoError::NotFound);
}

#[test]
fn delete_reports_whether_row_existed() {
    let (parts, mut ledger) = setup();
    assert!(ledger.find_by_id(1, &parts).is_some());
    assert!(ledger.delete(1));
    assert!(!ledger.delete(1));
    assert!(ledger.find_by_part_id(100).is_none());
}

#[test]
fn save_with_fresh_identifier_and_time() {
    let mut ledger = WarehouseRepositoryImpl::new();
    let item = ledger.save(&entry(9, 2, None)).unwrap();
    assert!(item.created_at > 0);
    assert_eq!(ledger.update_stock(9, &movement(2, StockMovementType::Outgoing)).unwrap().quantity, 0);
}
