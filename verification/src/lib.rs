//! Atlas-OS: a `.usdc` domain registry, the fulfillment workflow of a trade,
//! and the states of a trade escrow.

use vstd::prelude::*;

pub mod fulfiller;
pub mod fulfiller_laws;
pub mod registry;
pub mod registry_laws;
pub mod text;
pub mod trade;

pub use fulfiller::{FulfillerError, FulfillmentRecord, FulfillmentStatus};
pub use registry::{
    entity_type_from_name, has_registry_suffix, AtlasRegistry, DomainRecord, EntityType,
    RegistryError,
};
pub use trade::EscrowStatus;
