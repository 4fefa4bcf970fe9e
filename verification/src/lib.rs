//! Data-flow grouping for a parallel task scheduler.
//!
//! Tasks ("systems") declare, through the shapes of their parameters, which
//! shared state slots they read and which they write. This crate infers, from
//! such a parameter list, the read/write access-sets a system belongs to, and
//! builds the ordering edges ("all writers before all readers" of a slot, or
//! the reverse) that a host scheduler consumes.

pub mod automagic;
pub mod config;
pub mod laws;
pub mod markers;
pub mod ordering;

pub use automagic::InferFlow;
pub use automagic::InferFlowEach;
pub use automagic::ParamShape;
pub use automagic::QueryField;
pub use automagic::QueryFilter;
pub use config::System;
pub use config::SystemConfig;
pub use markers::AccessSet;
pub use markers::Direction;
pub use markers::IntoSystemRW;
pub use markers::Reads;
pub use markers::SlotId;
pub use markers::Writes;
pub use ordering::read_before_write;
pub use ordering::write_before_read;
pub use ordering::OrderingEdge;
