//! A dealership back-office store: a stock ledger for parts, service
//! campaigns with per-vehicle completion records, and the resolver that
//! lists the campaigns a vehicle still owes. The catalogues of brands,
//! models, customers, works and purchase offers are plain tables.

pub mod error;
pub mod keys;
pub mod seqs;
pub mod text;
mod system;

pub mod config;
pub mod enums;

pub mod part;
pub mod warehouse;

pub mod campaign;
pub mod car;
pub mod eligibility;
pub mod laws;

pub mod table;
pub mod brand;
pub mod car_model;
pub mod customer;
pub mod work;
pub mod purchase;
