//! A vector datatype for a relational database: its dimension modifier, the
//! checks on its dimension at input and at a cast, and the decisions around
//! its cosine distance.
pub mod binary64;
pub mod decimal;
pub mod distance;
pub mod error;
pub mod modifier;
pub mod vector;
