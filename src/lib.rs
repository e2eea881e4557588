//! Planning of element-wise linear interpolation for user-defined structs.
//!
//! A front end describes a struct (its name, its shape, and for each field the
//! declared type and the `lerp` directives attached to it) with the types of
//! [`schema`]. [`derive::lerp_derive_internal`] turns that description into a
//! [`schema::LerpImpl`]: one interpolation strategy per field, or the first
//! error met. [`iter::LerpIterator`] is the step schedule behind evenly spaced
//! interpolation between two endpoints.
mod text;
pub mod schema;
pub mod directive;
pub mod derive;
pub mod laws;
pub mod iter;
