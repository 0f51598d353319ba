//! Adapters that give a value an order of its own choosing: by a score, by a key of
//! another type, by a comparator, or by a key drawn from the value.

pub mod order;
pub mod order_by;
pub mod order_by_key;
pub mod order_nh;
pub mod total_order;

pub use order::OrderVal;
pub use order_by::OrderBy;
pub use order_by_key::OrderByKey;

pub use float_ord;
