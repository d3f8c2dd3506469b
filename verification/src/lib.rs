//! A typed-value conversion layer: heterogeneous scalar, list, map, set and
//! range values are represented as a closed tagged union that mirrors a
//! schema-defined wire format, with total constructors (native value to
//! variant) and fallible extractors (variant to native value) that return the
//! original value unchanged on a type mismatch.

pub mod list_value;
pub mod map_value;
pub mod range_value;
pub mod set_value;
pub mod union;
pub mod value;
