//! Closed sets of values for vehicles and purchase requests, each with a
//! total mapping to and from its stored name. An unknown name maps to
//! nothing rather than to a default.

use vstd::prelude::*;

verus! {

#[derive(Clone, Copy, Debug, PartialEq, Eq, Structural)]
pub enum FuelType {
    Petrol,
    Diesel,
    Electric,
    Hybrid,
}

pub open spec fn fuel_type_name(f: FuelType) -> Seq<char> {
    match f {
        FuelType::Petrol => "Petrol"@,
        FuelType::Diesel => "Diesel"@,
        FuelType::Electric => "Electric"@,
        FuelType::Hybrid => "Hybrid"@,
    }
}

pub open spec fn fuel_type_named(n: Seq<char>) -> Option<FuelType> {
    if n == "Petrol"@ {
        Some(FuelType::Petrol)
    } else if n == "Diesel"@ {
        Some(FuelType::Diesel)
    } else if n == "Electric"@ {
        Some(FuelType::Electric)
    } else if n == "Hybrid"@ {
        Some(FuelType::Hybrid)
    } else {
        None
    }
}

impl FuelType {
    /// The stored name.
    pub fn as_str(&self) -> (r: &'static str)
        ensures
            r@ == fuel_type_name(*self),
    {
        match self {
            FuelType::Petrol => "Petrol",
            FuelType::Diesel => "Diesel",
            FuelType::Electric => "Electric",
            FuelType::Hybrid => "Hybrid",
        }
    }

    /// The value with this stored name.
    pub fn from_name(name: &str) -> (r: Option<FuelType>)
        ensures
            r == fuel_type_named(name@),
    {
        let n = name.to_owned();
        if n == "Petrol".to_owned() {
            Some(FuelType::Petrol)
        } else if n == "Diesel".to_owned() {
            Some(FuelType::Diesel)
        } else if n == "Electric".to_owned() {
            Some(FuelType::Electric)
        } else if n == "Hybrid".to_owned() {
            Some(FuelType::Hybrid)
        } else {
            None
        }
    }
}

#[derive(Clone, Copy, Debug, PartialEq, Eq, Structural)]
pub enum Transmission {
    Manual,
    Automatic,
    CVT,
}

pub open spec fn transmission_name(t: Transmission) -> Seq<char> {
    match t {
        Transmission::Manual => "Manual"@,
        Transmission::Automatic => "Automatic"@,
        Transmission::CVT => "CVT"@,
    }
}

pub open spec fn transmission_named(n: Seq<char>) -> Option<Transmission> {
    if n == "Manual"@ {
        Some(Transmission::Manual)
    } else if n == "Automatic"@ {
        Some(Transmission::Automatic)
    } else if n == "CVT"@ {
        Some(Transmission::CVT)
    } else {
        None
    }
}

impl Transmission {
    /// The stored name.
    pub fn as_str(&self) -> (r: &'static str)
        ensures
            r@ == transmission_name(*self),
    {
        match self {
            Transmission::Manual => "Manual",
            Transmission::Automatic => "Automatic",
            Transmission::CVT => "CVT",
        }
    }

    /// The value with this stored name.
    pub fn from_name(name: &str) -> (r: Option<Transmission>)
        ensures
            r == transmission_named(name@),
    {
        let n = name.to_owned();
        if n == "Manual".to_owned() {
            Some(Transmission::Manual)
        } else if n == "Automatic".to_owned() {
            Some(Transmission::Automatic)
        } else if n == "CVT".to_owned() {
            Some(Transmission::CVT)
        } else {
            None
        }
    }
}

#[derive(Clone, Copy, Debug, PartialEq, Eq, Structural)]
pub enum CarStatus {
    Available,
    Reserved,
    Sold,
    Maintenance,
}

pub open spec fn car_status_name(s: CarStatus) -> Seq<char> {
    match s {
        CarStatus::Available => "Available"@,
        CarStatus::Reserved => "Reserved"@,
        CarStatus::Sold => "Sold"@,
        CarStatus::Maintenance => "Maintenance"@,
    }
}

pub open spec fn car_status_named(n: Seq<char>) -> Option<CarStatus> {
    if n == "Available"@ {
        Some(CarStatus::Available)
    } else if n == "Reserved"@ {
        Some(CarStatus::Reserved)
    } else if n == "Sold"@ {
        Some(CarStatus::Sold)
    } else if n == "Maintenance"@ {
        Some(CarStatus::Maintenance)
    } else {
        None
    }
}

impl CarStatus {
    /// The stored name.
    pub fn as_str(&self) -> (r: &'static str)
        ensures
            r@ == car_status_name(*self),
    {
        match self {
            CarStatus::Available => "Available",
            CarStatus::Reserved => "Reserved",
            CarStatus::Sold => "Sold",
            CarStatus::Maintenance => "Maintenance",
        }
    }

    /// The value with this stored name.
    pub fn from_name(name: &str) -> (r: Option<CarStatus>)
        ensures
            r == car_status_named(name@),
    {
        let n = name.to_owned();
        if n == "Available".to_owned() {
            Some(CarStatus::Available)
        } else if n == "Reserved".to_owned() {
            Some(CarStatus::Reserved)
        } else if n == "Sold".to_owned() {
            Some(CarStatus::Sold)
        } else if n == "Maintenance".to_owned() {
            Some(CarStatus::Maintenance)
        } else {
            None
        }
    }
}

#[derive(Clone, Copy, Debug, PartialEq, Eq, Structural)]
pub enum RequestStatus {
    Pending,
    Approved,
    Rejected,
    Completed,
}

pub open spec fn request_status_name(s: RequestStatus) -> Seq<char> {
    match s {
        RequestStatus::Pending => "Pending"@,
        RequestStatus::Approved => "Approved"@,
        RequestStatus::Rejected => "Rejected"@,
        RequestStatus::Completed => "Completed"@,
    }
}

pub open spec fn request_status_named(n: Seq<char>) -> Option<RequestStatus> {
    if n == "Pending"@ {
        Some(RequestStatus::Pending)
    } else if n == "Approved"@ {
        Some(RequestStatus::Approved)
    } else if n == "Rejected"@ {
        Some(RequestStatus::Rejected)
    } else if n == "Completed"@ {
        Some(RequestStatus::Completed)
    } else {
        None
    }
}

impl RequestStatus {
    /// The stored name.
    pub fn as_str(&self) -> (r: &'static str)
        ensures
            r@ == request_status_name(*self),
    {
        match self {
            RequestStatus::Pending => "Pending",
            RequestStatus::Approved => "Approved",
            RequestStatus::Rejected => "Rejected",
            RequestStatus::Completed => "Completed",
        }
    }

    /// The value with this stored name.
    pub fn from_name(name: &str) -> (r: Option<RequestStatus>)
        ensures
            r == request_status_named(name@),
    {
        let n = name.to_owned();
        if n == "Pending".to_owned() {
            Some(RequestStatus::Pending)
        } else if n == "Approved".to_owned() {
            Some(RequestStatus::Approved)
        } else if n == "Rejected".to_owned() {
            Some(RequestStatus::Rejected)
        } else if n == "Completed".to_owned() {
            Some(RequestStatus::Completed)
        } else {
            None
        }
    }
}

} // verus!
