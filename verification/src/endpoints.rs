//! Catalogs of the exchange's endpoints, one module per API family.

pub mod v5market;
