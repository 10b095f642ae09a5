//! Plugin discovery and registration: how plugin shared objects are named and
//! located, how plugin configurations are read, and how loaded plugins are
//! collected, de-duplicated and ordered.

pub mod config;
pub mod container;
pub mod error;
pub mod keyed;
pub mod laws;
pub mod load;
pub mod loader;
pub mod name_order;
pub mod naming;
pub mod registry;
