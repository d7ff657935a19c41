//! What holds of whole runs of the machines.

pub mod terms;
pub mod succession;
pub mod registration;
pub mod authenticators;
pub mod signed_requests;
pub mod records;
pub mod deliveries;
pub mod storage;
pub mod uploads;
pub mod transfers;
pub mod downloads;
pub mod expiry;
pub mod waiting;
pub mod history;
pub mod accounts;
pub mod endings;
pub mod values;
pub mod drawn;
pub mod views;
