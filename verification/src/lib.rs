//! A verified serialization engine for CycloneDX software bills of materials.
//!
//! One version-independent internal model of a BOM is converted to and from
//! XML wire documents for CycloneDX schema versions 1.2 through 1.5.  The
//! XML event stream and the rendered text come from the `xml` crate behind
//! trusted wrappers; everything the engine decides — element dispatch, lax
//! skipping of foreign elements, required-field and mutual-exclusivity
//! checks, and version gating — is verified against specification-level
//! parse and write functions.

pub mod errors;
pub mod laws;
pub mod model;
pub mod scalars;
pub mod xml_api;
pub mod xml_base;
pub mod xml_comp;
pub mod xml_doc;
pub mod xml_io;
pub mod xml_license;
pub mod xml_meta;
pub mod xml_service;
pub mod xml_list;
pub mod xml_org;
pub mod xml_simple;
pub mod xml_structs;
