//! The decisions of a guard for JSON request bodies, and a small mapping
//! capability.
//!
//! [`guard`] decides what becomes of a request that should carry a JSON body:
//! whether it is handled at all, how much of it is read, and with which HTTP
//! status and message it is refused where it cannot be read, decoded or
//! validated. [`mapping`] holds a trait for turning one value into another.

pub mod guard;
pub mod mapping;
