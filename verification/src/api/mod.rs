//! CloudHub API: the request that each call makes and what its answer means,
//! and the models that the API exchanges.
pub mod client;
pub mod models;
