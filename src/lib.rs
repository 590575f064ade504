//! Keeps address records at a hosted DNS provider in step with the machine's
//! public address: builds the wanted records, matches them to the provider's
//! records by name and type, and frames one batch of patches and posts per zone.
pub mod batch;
pub mod desired;
pub mod gate;
pub mod reconcile;
pub mod run;
pub mod records;
pub mod zones;
