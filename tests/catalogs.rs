use autodealer::brand::{BrandRepositoryImpl, CreateBrandRequest, UpdateBrandRequest};
use autodealer::car::{CarFilter, CarRepositoryImpl, CreateCarRequest, UpdateCarRequest};
use autodealer::car_model::{CarModelRepositoryImpl, CreateCarModelRequest};
use autodealer::config::{parse_port, Config, ConfigError};
use autodealer::customer::{CreateCustomerRequest, CustomerRepositoryImpl};
use autodealer::enums::{CarStatus, FuelType, RequestStatus, Transmission};
use autodealer::error::RepoError;
use autodealer::part::{CreatePartRequest, PartRepositoryImpl, UpdatePartRequest};
use autodealer::purchase::{CreatePurchaseRequest, PurchaseRepositoryImpl};
use autodealer::text::{contains_ignoring_case, contains_substring};
use autodealer::warehouse::{CreateWarehouseItemRequest, WarehouseRepositoryImpl};
use autodealer::work::{CreateWorkRequest, UpdateWorkRequest, WorkRepositoryImpl};

fn brand(name: &str, country: &str) -> CreateBrandRequest {
    CreateBrandRequest { name: name.to_string(), country: country.to_string() }
}

#[test]
fn brand_names_are_unique_and_countries_searchable() {
    let mut brands = BrandRepositoryImpl::new();
    brands.save_at(1, 0, brand("Lada", "Russia")).unwrap();
    brands.save_at(2, 0, brand("Volvo", "Sweden")).unwrap();
    assert_eq!(brands.save_at(3, 0, brand("Lada", "Other")).unwrap_err(), RepoError::Conflict);
    assert_eq!(brands.save_at(3, 0, brand("", "Nowhere")).unwrap_err(), RepoError::ValidationFailure);
    assert_eq!(brands.save_at(2, 0, brand("Kia", "Korea")).unwrap_err(), RepoError::Conflict);
    assert_eq!(brands.find_by_country("SWED".to_string()).len(), 1);
    assert_eq!(brands.find_by_name("Lada".to_string()).unwrap().id, 1);
    assert!(brands.exists_by_name("Volvo".to_string()));
    assert!(!brands.exists_by_name("volvo".to_string()));
    let edit = UpdateBrandRequest { name: Some("Volvo".to_string()), country: None };
    assert_eq!(brands.update_at(1, 5, edit).unwrap_err(), RepoError::Conflict);
    let edit = UpdateBrandRequest { name: None, country: Some("RU".to_string()) };
    let b = brands.update_at(1, 5, edit).unwrap();
    assert_eq!(b.country, "RU");
    assert_eq!(b.updated_at, 5);
    assert!(brands.delete(2));
    assert_eq!(brands.find_all().len(), 1);
}

#[test]
fn model_names_unique_within_brand() {
    let mut models = CarModelRepositoryImpl::new();
    let m = |name: &str, b: u128| CreateCarModelRequest { name: name.to_string(), brand_id: b };
    models.save_at(1, 0, m("Vesta", 10)).unwrap();
    models.save_at(2, 0, m("Vesta", 11)).unwrap();
    assert_eq!(models.save_at(3, 0, m("Vesta", 10)).unwrap_err(), RepoError::Conflict);
    assert_eq!(models.find_by_brand(10).len(), 1);
    assert_eq!(models.find_by_name("est".to_string()).len(), 2);
    assert!(models.exists_by_brand_and_name(11, "Vesta".to_string()));
}

#[test]
fn customers_need_names_and_unique_email() {
    let mut customers = CustomerRepositoryImpl::new();
    let c = |f: &str, l: &str, e: &str| CreateCustomerRequest {
        first_name: f.to_string(),
        last_name: l.to_string(),
        email: e.to_string(),
        phone: "+100".to_string(),
    };
    customers.save_at(1, 0, c("Ivan", "Petrov", "ivan@example.com")).unwrap();
    assert_eq!(customers.save_at(2, 0, c("I", "Petrov", "x@example.com")).unwrap_err(), RepoError::ValidationFailure);
    assert_eq!(customers.save_at(2, 0, c("Anna", "Sidorova", "ivan@example.com")).unwrap_err(), RepoError::Conflict);
    customers.save_at(2, 0, c("Анна", "Ли", "anna@example.com")).unwrap();
    assert_eq!(customers.find_by_email("anna@example.com".to_string()).unwrap().id, 2);
    assert_eq!(customers.find_by_name("iv".to_string(), "PET".to_string()).len(), 1);
    assert!(customers.exists_by_email("ivan@example.com".to_string()));
    let updated = customers.update(2, c("Anna", "Lee", "anna@example.com")).unwrap();
    assert_eq!(updated.last_name, "Lee");
    assert_eq!(customers.update(9, c("Anna", "Lee", "z@example.com")).unwrap_err(), RepoError::NotFound);
}

#[test]
fn works_need_article_and_minimum_duration() {
    let mut works = WorkRepositoryImpl::new();
    let w = |a: &str, minutes: u32| CreateWorkRequest {
        name: "Oil change".to_string(),
        article: a.to_string(),
        norm_minutes: minutes,
        brand_id: 1,
        car_model_id: 2,
    };
    works.save_at(1, 0, w("W-1", 30)).unwrap();
    assert_eq!(works.save_at(2, 0, w("W-2", 5)).unwrap_err(), RepoError::ValidationFailure);
    assert_eq!(works.save_at(2, 0, w("W-1", 60)).unwrap_err(), RepoError::Conflict);
    assert_eq!(works.find_by_article("W-1".to_string()).unwrap().norm_minutes, 30);
    assert_eq!(works.find_by_name("OIL".to_string()).len(), 1);
    assert_eq!(works.find_by_brand(1).len(), 1);
    assert_eq!(works.find_by_car_model(3).len(), 0);
    let edit = UpdateWorkRequest { name: None, article: None, norm_minutes: Some(45), brand_id: None, car_model_id: None };
    assert_eq!(works.update_at(1, 9, edit).unwrap().norm_minutes, 45);
    assert!(works.exists_by_article("W-1".to_string()));
}

#[test]
fn one_offer_per_customer_and_vehicle() {
    let mut offers = PurchaseRepositoryImpl::new();
    let o = |car: u128, cu: u128| CreatePurchaseRequest { car_id: car, customer_id: cu, offer_price: Some(100_000), notes: None };
    let first = offers.save_at(1, 0, o(10, 20)).unwrap();
    assert_eq!(first.status, RequestStatus::Pending);
    assert_eq!(offers.save_at(2, 0, o(10, 20)).unwrap_err(), RepoError::Conflict);
    offers.save_at(2, 0, o(11, 20)).unwrap();
    assert_eq!(offers.find_by_customer_id(20).len(), 2);
    assert_eq!(offers.find_by_car_id(11).len(), 1);
    assert!(offers.exists_by_car_and_customer(10, 20));
    offers.update_status_at(1, RequestStatus::Approved, 3).unwrap();
    assert_eq!(offers.find_by_status(RequestStatus::Approved).len(), 1);
    assert_eq!(offers.update_status_at(7, RequestStatus::Rejected, 3).unwrap_err(), RepoError::NotFound);
}

fn car(vin: &str, brand: u128) -> CreateCarRequest {
    CreateCarRequest {
        brand_id: brand,
        model_id: 5,
        year: 2015,
        price: 900_000,
        mileage: 0,
        color: "black".to_string(),
        vin: vin.to_string(),
        fuel_type: FuelType::Diesel,
        transmission: Transmission::Automatic,
    }
}

fn no_edit() -> UpdateCarRequest {
    UpdateCarRequest {
        brand_id: None,
        model_id: None,
        year: None,
        price: None,
        mileage: None,
        color: None,
        vin: None,
        fuel_type: None,
        transmission: None,
        status: None,
    }
}

#[test]
fn vehicle_edit_keeps_completed_set_and_unique_vins() {
    let mut cars = CarRepositoryImpl::new();
    cars.save_at(1, 0, car("AAAAAAAAAAAAAAAA1", 1)).unwrap();
    cars.save_at(2, 1, car("AAAAAAAAAAAAAAAA2", 2)).unwrap();
    cars.add_completed_campaign_at(1, 7, 2).unwrap();
    let mut e = no_edit();
    e.vin = Some("AAAAAAAAAAAAAAAA2".to_string());
    assert_eq!(cars.update_at(1, 3, e).unwrap_err(), RepoError::Conflict);
    let mut e = no_edit();
    e.year = Some(1950);
    assert_eq!(cars.update_at(1, 3, e).unwrap_err(), RepoError::ValidationFailure);
    let mut e = no_edit();
    e.vin = Some("AAAAAAAAAAAAAAAA1".to_string());
    e.status = Some(CarStatus::Reserved);
    let c = cars.update_at(1, 3, e).unwrap();
    assert_eq!(c.completed_service_campaigns, vec![7]);
    assert_eq!(c.status, CarStatus::Reserved);
    let ids: Vec<u128> = cars.get_cars_by_completed_campaign(7).iter().map(|c| c.id).collect();
    assert_eq!(ids, vec![1]);
    assert_eq!(cars.find_by(CarFilter::Status(CarStatus::Reserved)).len(), 1);
    assert_eq!(cars.find_by_brand_id(2).len(), 1);
    assert_eq!(cars.find_by_model_id(5).len(), 2);
    assert_eq!(cars.find_by_status(CarStatus::Available).len(), 1);
}

#[test]
fn ledger_lookup_by_article_and_location() {
    let mut parts = PartRepositoryImpl::new();
    let p = |a: &str| CreatePartRequest {
        article: a.to_string(),
        name: "Filter".to_string(),
        brand_id: 1,
        car_model_id: 2,
        purchase_price: 500,
        sale_price: 900,
        compatible_vins: vec!["VIN-X".to_string()],
    };
    parts.save_at(1, 0, p("F-1")).unwrap();
    parts.save_at(2, 0, p("F-2")).unwrap();
    assert_eq!(parts.save_at(3, 0, p("F-1")).unwrap_err(), RepoError::Conflict);
    let mut ledger = WarehouseRepositoryImpl::new();
    let e = |part: u128, loc: Option<&str>| CreateWarehouseItemRequest {
        part_id: part,
        quantity: 3,
        min_stock_level: None,
        max_stock_level: None,
        location: loc.map(|l| l.to_string()),
    };
    ledger.save_at(11, 0, &e(1, Some("Shelf A-3"))).unwrap();
    ledger.save_at(12, 0, &e(2, None)).unwrap();
    assert_eq!(ledger.find_by_article("F-2", &parts).unwrap().id, 12);
    assert!(ledger.find_by_article("F-9", &parts).is_none());
    let found = ledger.find_by_location("shelf a", &parts);
    assert_eq!(found.len(), 1);
    assert_eq!(found[0].id, 11);
    assert_eq!(parts.find_by_vin("VIN-X".to_string()).len(), 2);
    assert_eq!(parts.find_by_brand(1).len(), 2);
    assert_eq!(parts.find_by_car_model(9).len(), 0);
    assert_eq!(parts.find_by_article("F-2").unwrap().id, 2);
    assert!(parts.delete(2));
    assert!(ledger.find_by_article("F-2", &parts).is_none());
}

#[test]
fn substring_search() {
    assert!(contains_substring("warehouse", "house"));
    assert!(contains_substring("abc", ""));
    assert!(!contains_substring("ab", "abc"));
    assert!(!contains_substring("Shelf", "shelf"));
    assert!(contains_ignoring_case("Shelf", "SHE"));
}

#[test]
fn port_parsing() {
    assert_eq!(parse_port("8080"), Some(8080));
    assert_eq!(parse_port("+443"), Some(443));
    assert_eq!(parse_port("65535"), Some(65535));
    assert_eq!(parse_port("65536"), None);
    assert_eq!(parse_port(""), None);
    assert_eq!(parse_port("+"), None);
    assert_eq!(parse_port("80a"), None);
    assert_eq!(parse_port("-1"), None);
}

#[test]
fn config_defaults_and_errors() {
    let c = Config::from_values(Some("postgres://db".to_string()), None, None).unwrap();
    assert_eq!(c.server.host, "127.0.0.1");
    assert_eq!(c.server.port, 8080);
    assert_eq!(c.database.url, "postgres://db");
    let c = Config::from_values(Some("u".to_string()), Some("0.0.0.0".to_string()), Some("9000".to_string())).unwrap();
    assert_eq!(c.server.host, "0.0.0.0");
    assert_eq!(c.server.port, 9000);
    assert_eq!(Config::from_values(None, None, None).unwrap_err(), ConfigError::MissingDatabaseUrl);
    assert_eq!(Config::from_values(Some("u".to_string()), None, Some("http".to_string())).unwrap_err(), ConfigError::InvalidPort);
}

#[test]
fn offer_needs_existing_vehicle_and_customer() {
    let mut cars = CarRepositoryImpl::new();
    cars.save_at(10, 0, car("BBBBBBBBBBBBBBBB1", 1)).unwrap();
    let mut customers = CustomerRepositoryImpl::new();
    customers
        .save_at(
            20,
            0,
            CreateCustomerRequest {
                first_name: "Olga".to_string(),
                last_name: "Ivanova".to_string(),
                email: "olga@example.com".to_string(),
                phone: "1".to_string(),
            },
        )
        .unwrap();
    let mut offers = PurchaseRepositoryImpl::new();
    let o = |car: u128, cu: u128| CreatePurchaseRequest { car_id: car, customer_id: cu, offer_price: None, notes: Some("cash".to_string()) };
    assert_eq!(offers.save_checked_at(1, 0, o(11, 20), &cars, &customers).unwrap_err(), RepoError::UnknownCar);
    assert_eq!(offers.save_checked_at(1, 0, o(11, 21), &cars, &customers).unwrap_err(), RepoError::UnknownCar);
    assert_eq!(offers.save_checked_at(1, 0, o(10, 21), &cars, &customers).unwrap_err(), RepoError::UnknownCustomer);
    let offer = offers.save_checked_at(1, 0, o(10, 20), &cars, &customers).unwrap();
    assert_eq!(offer.notes.as_deref(), Some("cash"));
    assert_eq!(offers.save_checked_at(2, 0, o(10, 20), &cars, &customers).unwrap_err(), RepoError::Conflict);
    assert_eq!(offers.find_all().len(), 1);
}

#[test]
fn part_edit_keeps_articles_unique() {
    let mut parts = PartRepositoryImpl::new();
    let p = |a: &str| CreatePartRequest {
        article: a.to_string(),
        name: "Pad".to_string(),
        brand_id: 1,
        car_model_id: 2,
        purchase_price: 100,
        sale_price: 150,
        compatible_vins: vec![],
    };
    parts.save_at(1, 0, p("P-1")).unwrap();
    parts.save_at(2, 0, p("P-2")).unwrap();
    let edit = |a: Option<&str>, price: Option<u64>| UpdatePartRequest {
        article: a.map(|s| s.to_string()),
        name: None,
        brand_id: None,
        car_model_id: None,
        purchase_price: price,
        sale_price: None,
        compatible_vins: None,
    };
    assert_eq!(parts.update_at(1, 5, edit(Some("P-2"), None)).unwrap_err(), RepoError::Conflict);
    let same = parts.update_at(1, 5, edit(Some("P-1"), Some(120))).unwrap();
    assert_eq!(same.purchase_price, 120);
    assert_eq!(same.updated_at, 5);
    assert_eq!(parts.update_at(9, 5, edit(None, None)).unwrap_err(), RepoError::NotFound);
}
