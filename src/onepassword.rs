//! The data model of a 1Password secrets service: references to vaults,
//! items and fields, and the records the service exchanges.
pub mod error;
pub mod model;
pub mod reference;
