//! Discovery of Web of Things devices, normalization of their Thing
//! Descriptions into a typed model, and the hazard catalog used to annotate
//! their capabilities.

pub mod abstraction;
pub mod catalog;
pub mod decode;
pub mod discovery;
pub mod error;
pub mod hazard;
pub mod json;
pub mod label;
pub mod ontology;
pub mod templates;
pub mod text;
pub mod thing;
