//! Status probe for a geocoding search service and the Elasticsearch cluster
//! behind it: index-name decoding, endpoint derivation, error rendering and the
//! stage-by-stage probe that assembles the health report.

pub mod text;
pub mod time;
pub mod model;
pub mod index;
pub mod error;
pub mod endpoint;
pub mod probe;
pub mod settings;
