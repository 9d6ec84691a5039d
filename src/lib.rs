//! A read-only product catalog: a lock-guarded in-memory store of products,
//! the two queries served over it, and the start-up decision on whether
//! trace spans are exported or only logged locally.

pub mod catalog;
pub mod product;
pub mod store;
pub mod telemetry;
