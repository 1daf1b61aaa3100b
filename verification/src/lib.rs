//! Classification of partial character records into fictional-universe
//! categories.
//!
//! The crate has two layers: a string [`normalizer`] that canonicalizes raw
//! optional text fields (trim plus lower-case), and a [`classifier`] that
//! runs a fixed cascade of evidence tiers (age, world, traits, humanoid
//! status) over one record and returns exactly one category, with
//! `Indeterminate` as a first-class outcome rather than an error.

pub mod classifier;
pub mod laws;
pub mod normalizer;
