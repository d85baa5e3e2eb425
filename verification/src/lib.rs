//! Hermes Space Relay Network: the integer-valued core of the relay
//! network's time keeping, link visibility and contact planning.

pub mod contact;
pub mod error;
pub mod lagrange;
pub mod time;
pub mod visibility;

pub use time::{TimeAcceleration, WallDuration};
pub use error::{HermesError, Result};
pub use visibility::VisibilityResult;
pub use lagrange::LagrangePoint;
pub use contact::NodeId;
