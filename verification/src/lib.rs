//! Structural-integrity checking for a compiled module.
//!
//! A module arrives as a set of index-addressed tables (identifiers,
//! constants, signatures, handles, instantiations, definitions).  Before any
//! later verification stage may trust an index as a unique name for an entry,
//! every table must be free of duplicates under its table-specific key,
//! every definition must belong to the module being checked, and every
//! struct or function handle owned by that module must have exactly one
//! definition.  [`checker::DuplicationChecker::verify`] decides this, and
//! reports the first violation in a fixed check order.

pub mod checker;
pub mod dup_scan;
pub mod errors;
pub mod file_format;
pub mod props;
