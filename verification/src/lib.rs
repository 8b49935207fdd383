//! Diagnostics for one machine, with the logic verified by Verus.
//!
//! The census of storage volumes finds the largest files of each volume:
//! [`volumes`] selects the volumes to scan, [`walker`] walks a volume's
//! directory tree with a work stack, deciding with [`entry`], [`attributes`]
//! and [`path`] what becomes of each entry, [`inventory`] holds what the walk
//! found, [`ranker`] picks the largest files, and [`report`] lays out the
//! section of a volume. [`tree`] says what a walk records of a given tree, and
//! proves what holds of every inventory. [`scan`] holds the result of one
//! volume.
//!
//! The system information report is planned in [`plan`] and laid out by
//! [`sysinfo`], [`properties`] and [`languages`]; [`text`] holds the string
//! handling that both reports share.
//!
//! The library does no input or output. Its callers list directories, query
//! the system and write files, and hand the library plain values.

pub mod attributes;
pub mod entry;
pub mod inventory;
pub mod languages;
pub mod path;
pub mod plan;
pub mod properties;
pub mod ranker;
pub mod report;
pub mod scan;
pub mod sysinfo;
pub mod text;
pub mod tree;
pub mod volumes;
pub mod walker;
