//! Query construction for an analytics store with two backends: a
//! transactional one and an analytical one. A builder collects rendered
//! fragments and assembles them into query text; every step is specified over
//! the character sequences it produces.

pub mod builder;
pub mod clause;
pub mod descriptor;
pub mod errors;
pub mod filter;
pub mod granularity;
pub mod ids;
pub mod layout;
pub mod occurrence;
pub mod scope;
pub mod source;
pub mod text;
pub mod to_sql;
