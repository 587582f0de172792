//! A safety bridge between a host runtime that owns typed vectors and native
//! logic that transforms them.
//!
//! The library holds the verified logic of the bridge: the host's vectors as
//! plain values, typed views that check the element tag before any access,
//! the element-wise transforms, the settlement of a guarded call into one
//! handle, and the low-bit tagging of that handle.
pub mod boundary;
pub mod error;
pub mod host;
pub mod tagged;
pub mod transform;
pub mod view;

pub use boundary::{CallOutcome, Settlement, wrapper};
pub use error::BoundaryError;
pub use host::{ElementType, HostVector};
pub use transform::{times_two_int_inner, to_upper_inner};
pub use view::{IntegerView, RealView, TextView};
