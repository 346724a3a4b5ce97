//! The identity-mapping and subscription-fanout core of an OpenZWave adapter.
//!
//! The adapter stands between a Z-Wave driver and a registry of services.
//! It remembers which identifier of the registry stands for which object of
//! the driver ([`id_map`]), who watches which getter ([`watchers`]), and it
//! decides what each notification of the driver ([`dispatch`]) and each
//! request of the registry ([`adapter`]) leads to.

pub mod adapter;
pub mod dispatch;
pub mod driver;
pub mod error;
pub mod id_map;
pub mod label;
pub mod reading;
pub mod taxonomy;
pub mod watchers;

pub use crate::adapter::OpenzwaveAdapter;
pub use crate::adapter::OpenzwaveAdapter as Adapter;
pub use crate::error::Error;
