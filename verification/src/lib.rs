//! In-memory hierarchical store for discrete-event simulation telemetry.
//!
//! A [`db::DB`] owns named [`db::Workflow`]s; each workflow owns four
//! independent name-keyed collections of [`db::Resource`]s, [`db::Container`]s,
//! [`db::Store`]s and [`db::CustomComponent`]s, and each of those keeps
//! append-only logs of numeric events.  Timestamps and quantities are carried
//! as [`numeric::BigNumber`], a tagged integral/fractional number.

pub mod db;
pub mod name_table;
pub mod numeric;
