//! The values that the attributes of a configured target hold.

pub mod attr_literal;
pub mod attr_value;
pub mod coerced_path;
pub mod concat;
pub mod configured_attr;
