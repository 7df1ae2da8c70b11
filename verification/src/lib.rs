//! A credential issuance controller that keeps a transaction event log
//! anchored in the key event log of its issuer.

pub mod crypto;
pub mod error;
pub mod event;
pub mod tel;
pub mod registry;
pub mod kel;
pub mod model;
pub mod laws;
pub mod controller;
