//! An escrow settlement engine.
//!
//! The engine holds value committed by a buyer for an order until a release
//! condition is met, then pays it out exactly once: to the seller (minus a
//! configurable platform fee) on release, or back to the buyer on refund.
//! Every state transition is specified and verified; the host environment
//! that supplies storage, authentication, the clock and the actual asset
//! transfers stays outside and acts on the `Transfer` values the engine
//! returns.

pub mod engine;
pub mod errors;
pub mod fees;
pub mod model;

pub use engine::EscrowContract;
pub use errors::EscrowError;
pub use model::Escrow;
pub use model::EscrowStatus;
pub use model::Party;
pub use model::PlatformConfig;
pub use model::Transfer;
