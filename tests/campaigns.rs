use autodealer::campaign::{
    CampaignFilter, CreateServiceCampaignRequest, ServiceCampaignRepositoryImpl,
    ServiceCampaignStatus,
};
use autodealer::car::{CarRepositoryImpl, CreateCarRequest};
use autodealer::enums::{CarStatus, FuelType, Transmission};
use autodealer::error::RepoError;

const B1: u128 = 11;
const M1: u128 = 21;

fn car_request(vin: &str) -> CreateCarRequest {
    CreateCarRequest {
        brand_id: B1,
        model_id: M1,
        year: 2020,
        price: 1_500_000,
        mileage: 1000,
        color: "red".to_string(),
        vin: vin.to_string(),
        fuel_type: FuelType::Petrol,
        transmission: Transmission::Manual,
    }
}

fn campaign_request(article: &str, vins: Vec<&str>, mandatory: bool) -> CreateServiceCampaignRequest {
    CreateServiceCampaignRequest {
        article: article.to_string(),
        name: format!("Campaign {}", article),
        description: None,
        brand_id: B1,
        car_model_id: M1,
        target_vins: vins.into_iter().map(|v| v.to_string()).collect(),
        required_parts: vec![],
        required_works: vec![],
        is_mandatory: mandatory,
    }
}

const VIN1: &str = "V1234567890123456";
const VIN2: &str = "W1234567890123456";

fn setup() -> (CarRepositoryImpl, ServiceCampaignRepositoryImpl) {
    let mut cars = CarRepositoryImpl::new();
    cars.save_at(1, 5, car_request(VIN1)).unwrap();
    cars.save_at(2, 5, car_request(VIN2)).unwrap();
    let mut campaigns = ServiceCampaignRepositoryImpl::new();
    campaigns.save_at(100, 10, campaign_request("C-100", vec![], false)).unwrap();
    (cars, campaigns)
}

fn pending_ids(cars: &CarRepositoryImpl, campaigns: &ServiceCampaignRepositoryImpl, car: u128) -> Vec<u128> {
    cars.get_pending_campaigns_for_car(car, campaigns).iter().map(|c| c.id).collect()
}

#[test]
fn wildcard_campaign_pending_until_marked() {
    let (mut cars, campaigns) = setup();
    assert_eq!(pending_ids(&cars, &campaigns, 1), vec![100]);
    let car = cars.add_completed_campaign_at(1, 100, 50).unwrap();
    assert_eq!(car.completed_service_campaigns, vec![100]);
    assert_eq!(car.updated_at, 50);
    assert!(pending_ids(&cars, &campaigns, 1).is_empty());
    assert_eq!(pending_ids(&cars, &campaigns, 2), vec![100]);
}

#[test]
fn unmark_makes_campaign_pending_again() {
    let (mut cars, campaigns) = setup();
    cars.add_completed_campaign_at(1, 100, 50).unwrap();
    let car = cars.remove_completed_campaign_at(1, 100, 60).unwrap();
    assert!(car.completed_service_campaigns.is_empty());
    assert_eq!(pending_ids(&cars, &campaigns, 1), vec![100]);
}

#[test]
fn mark_twice_keeps_one_entry() {
    let (mut cars, _campaigns) = setup();
    cars.add_completed_campaign_at(1, 100, 50).unwrap();
    let again = cars.add_completed_campaign_at(1, 100, 60);
    assert_eq!(again.unwrap_err(), RepoError::NotFound);
    let car = cars.find_by_id(1).unwrap();
    assert_eq!(car.completed_service_campaigns, vec![100]);
    assert_eq!(car.updated_at, 50);
}

#[test]
fn mark_on_missing_vehicle_is_not_found() {
    let (mut cars, _campaigns) = setup();
    assert_eq!(cars.add_completed_campaign_at(9, 100, 50).unwrap_err(), RepoError::NotFound);
    assert_eq!(cars.remove_completed_campaign_at(9, 100, 50).unwrap_err(), RepoError::NotFound);
    assert_eq!(cars.clear_completed_campaigns_at(9, 50).unwrap_err(), RepoError::NotFound);
}

#[test]
fn unmark_of_absent_campaign_returns_vehicle() {
    let (mut cars, _campaigns) = setup();
    let car = cars.remove_completed_campaign_at(1, 555, 70).unwrap();
    assert!(car.completed_service_campaigns.is_empty());
    assert_eq!(car.updated_at, 70);
}

#[test]
fn clear_twice_leaves_empty_set() {
    let (mut cars, _campaigns) = setup();
    cars.add_completed_campaign_at(1, 100, 50).unwrap();
    cars.add_completed_campaign_at(1, 200, 51).unwrap();
    let once = cars.clear_completed_campaigns_at(1, 60).unwrap();
    assert!(once.completed_service_campaigns.is_empty());
    let twice = cars.clear_completed_campaigns_at(1, 70).unwrap();
    assert!(twice.completed_service_campaigns.is_empty());
    assert_eq!(twice.vin, once.vin);
}

#[test]
fn completed_set_never_holds_duplicates() {
    let (mut cars, _campaigns) = setup();
    for (t, c) in [100u128, 200, 100, 300, 200, 100].iter().enumerate() {
        let _ = cars.add_completed_campaign_at(1, *c, t as i64);
    }
    let _ = cars.remove_completed_campaign_at(1, 200, 10);
    let _ = cars.add_completed_campaign_at(1, 200, 11);
    let _ = cars.add_completed_campaign_at(1, 200, 12);
    let mut set = cars.find_by_id(1).unwrap().completed_service_campaigns;
    set.sort();
    assert_eq!(set, vec![100, 200, 300]);
}

#[test]
fn reverse_lookup_returns_marked_vehicles() {
    let (mut cars, _campaigns) = setup();
    cars.save_at(3, 9, car_request("X1234567890123456")).unwrap();
    cars.add_completed_campaign_at(1, 100, 50).unwrap();
    cars.add_completed_campaign_at(3, 100, 51).unwrap();
    cars.add_completed_campaign_at(2, 200, 52).unwrap();
    let ids: Vec<u128> = cars.get_cars_by_completed_campaign(100).iter().map(|c| c.id).collect();
    assert_eq!(ids, vec![3, 1]);
    cars.remove_completed_campaign_at(1, 100, 60).unwrap();
    let ids: Vec<u128> = cars.get_cars_by_completed_campaign(100).iter().map(|c| c.id).collect();
    assert_eq!(ids, vec![3]);
    cars.clear_completed_campaigns_at(3, 61).unwrap();
    assert!(cars.get_cars_by_completed_campaign(100).is_empty());
}

#[test]
fn mandatory_listed_before_optional() {
    let (cars, mut campaigns) = setup();
    campaigns.save_at(200, 5, campaign_request("C-200", vec![], true)).unwrap();
    assert_eq!(pending_ids(&cars, &campaigns, 1), vec![200, 100]);
}

#[test]
fn newer_listed_first_within_group() {
    let (cars, mut campaigns) = setup();
    campaigns.save_at(300, 30, campaign_request("C-300", vec![], false)).unwrap();
    campaigns.save_at(400, 20, campaign_request("C-400", vec![], true)).unwrap();
    campaigns.save_at(500, 40, campaign_request("C-500", vec![], true)).unwrap();
    assert_eq!(pending_ids(&cars, &campaigns, 1), vec![500, 400, 300, 100]);
}

#[test]
fn targeted_campaign_only_for_named_vin() {
    let (cars, mut campaigns) = setup();
    campaigns.save_at(200, 20, campaign_request("C-200", vec![VIN2], false)).unwrap();
    assert_eq!(pending_ids(&cars, &campaigns, 1), vec![100]);
    assert_eq!(pending_ids(&cars, &campaigns, 2), vec![200, 100]);
}

#[test]
fn only_active_campaigns_of_brand_and_model_are_pending() {
    let (cars, mut campaigns) = setup();
    campaigns.save_at(200, 20, campaign_request("C-200", vec![], false)).unwrap();
    campaigns.update_status(200, ServiceCampaignStatus::Cancelled).unwrap();
    let mut other = campaign_request("C-300", vec![], false);
    other.car_model_id = M1 + 1;
    campaigns.save_at(300, 30, other).unwrap();
    campaigns.mark_completed(100).unwrap();
    assert!(pending_ids(&cars, &campaigns, 1).is_empty());
    campaigns.mark_pending(100).unwrap();
    assert_eq!(pending_ids(&cars, &campaigns, 1), vec![100]);
}

#[test]
fn pending_for_missing_vehicle_is_empty() {
    let (cars, campaigns) = setup();
    assert!(pending_ids(&cars, &campaigns, 42).is_empty());
}

#[test]
fn campaign_article_must_be_unique_and_present() {
    let (_cars, mut campaigns) = setup();
    let r = campaigns.save_at(200, 1, campaign_request("C-100", vec![], false));
    assert_eq!(r.unwrap_err(), RepoError::Conflict);
    let r = campaigns.save_at(200, 1, campaign_request("", vec![], false));
    assert_eq!(r.unwrap_err(), RepoError::ValidationFailure);
    assert!(campaigns.exists_by_article("C-100"));
    assert!(!campaigns.exists_by_article("C-999"));
}

#[test]
fn campaign_filters_select_by_attribute() {
    let (_cars, mut campaigns) = setup();
    campaigns.save_at(200, 20, campaign_request("C-200", vec![VIN2], true)).unwrap();
    assert_eq!(campaigns.find_by_mandatory(true).len(), 1);
    assert_eq!(campaigns.find_by_vin(VIN2.to_string()).len(), 1);
    assert_eq!(campaigns.find_by_vin(VIN1.to_string()).len(), 0);
    assert_eq!(campaigns.find_by_brand(B1).len(), 2);
    assert_eq!(campaigns.find_by(&CampaignFilter::CarModel(M1 + 5)).len(), 0);
    campaigns.mark_completed(200).unwrap();
    let done = campaigns.find_by_status(ServiceCampaignStatus::Completed);
    assert_eq!(done.len(), 1);
    assert!(done[0].is_completed);
    assert_eq!(campaigns.find_by_completed(false)[0].id, 100);
}

#[test]
fn status_names_read_in_any_case() {
    assert_eq!(ServiceCampaignRepositoryImpl::status_from_str("ACTIVE"), Some(ServiceCampaignStatus::Active));
    assert_eq!(ServiceCampaignRepositoryImpl::status_from_str("Completed"), Some(ServiceCampaignStatus::Completed));
    assert_eq!(ServiceCampaignRepositoryImpl::status_from_str("cancelled"), Some(ServiceCampaignStatus::Cancelled));
    assert_eq!(ServiceCampaignRepositoryImpl::status_from_str("paused"), None);
    assert_eq!(ServiceCampaignStatus::from_lowercase("Active"), None);
    assert_eq!(ServiceCampaignStatus::Cancelled.as_str(), "cancelled");
}

#[test]
fn vehicle_validation_and_vin_uniqueness() {
    let (mut cars, _campaigns) = setup();
    assert_eq!(cars.save_at(5, 1, car_request(VIN1)).unwrap_err(), RepoError::Conflict);
    assert_eq!(cars.save_at(5, 1, car_request("SHORT")).unwrap_err(), RepoError::ValidationFailure);
    let mut old = car_request("Z1234567890123456");
    old.year = 1980;
    assert_eq!(cars.save_at(5, 1, old).unwrap_err(), RepoError::ValidationFailure);
    let car = cars.save_at(5, 1, car_request("Ж1234567890123456")).unwrap();
    assert_eq!(car.status, CarStatus::Available);
    assert!(cars.exists_by_vin("Ж1234567890123456"));
    assert_eq!(cars.update_status_at(5, CarStatus::Sold, 9).unwrap().status, CarStatus::Sold);
    assert!(cars.delete(5));
    assert!(cars.find_by_vin("Ж1234567890123456").is_none());
}

#[test]
fn enum_names_map_both_ways() {
    assert_eq!(FuelType::from_name("Hybrid"), Some(FuelType::Hybrid));
    assert_eq!(FuelType::from_name("hybrid"), None);
    assert_eq!(Transmission::CVT.as_str(), "CVT");
    assert_eq!(CarStatus::from_name(CarStatus::Maintenance.as_str()), Some(CarStatus::Maintenance));
}

#[test]
fn vehicle_lists_are_newest_first() {
    let mut cars = CarRepositoryImpl::new();
    cars.save_at(1, 1, car_request("A1234567890123456")).unwrap();
    cars.save_at(2, 3, car_request("B1234567890123456")).unwrap();
    cars.save_at(3, 2, car_request("C1234567890123456")).unwrap();
    for id in [1u128, 2, 3] {
        cars.add_completed_campaign_at(id, 100, 10).unwrap();
    }
    let ids: Vec<u128> = cars.get_cars_by_completed_campaign(100).iter().map(|c| c.id).collect();
    assert_eq!(ids, vec![2, 3, 1]);
    let all: Vec<u128> = cars.find_all().iter().map(|c| c.id).collect();
    assert_eq!(all, vec![2, 3, 1]);
    let by_brand: Vec<u128> = cars.find_by_brand_id(B1).iter().map(|c| c.id).collect();
    assert_eq!(by_brand, vec![2, 3, 1]);
}
