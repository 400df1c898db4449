//! Verified core of a geospatial connector layer: SQL identifier safety and
//! statement synthesis for a PostGIS backend, backend type mapping, layer
//! schema mapping, the connector capability table, and the feature stream
//! that turns native file features into normalized records. The asynchronous
//! shell that opens datasets, owns connection pools and executes the
//! synthesized statements lives outside this crate's verified modules.
pub mod connector;
pub mod ident;
pub mod layer;
pub mod postgis;
pub mod record;
pub mod schema;
pub mod stream;
pub mod strutil;
