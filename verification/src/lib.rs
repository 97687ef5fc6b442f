//! A reverse proxy core for a pool of image-generation backends: a service
//! registry with least-loaded routing, translation of JSON and multipart
//! requests into a canonical form, construction of the backend's native
//! payload, and reshaping of backend replies into the public response
//! schema. The surrounding HTTP server, file persistence and logging live
//! outside this crate; everything here is specified and verified.

/// Admin operations over the registry: register, unregister, list.
pub mod admin;
/// Byte- and string-level helpers, and UTF-8 decoding.
pub mod bytes;
/// The error taxonomy and its mapping to HTTP status codes.
pub mod error;
/// The JSON document model, serialization helpers and wire parsing.
pub mod json;
/// Extraction of a canonical generate request from a JSON document.
pub mod jsonreq;
/// Decimal parsing and formatting, and the JSON number grammar.
pub mod numbers;
/// Construction of the backend's native generate and edit payloads.
pub mod payload;
/// The top of the pipeline: boundary handling and request planning.
pub mod proxy;
/// The backend registry and the least-loaded routing policy.
pub mod registry;
/// The canonical request model, its schema defaults and validation.
pub mod request;
/// Reply reshaping, response serialization and planned responses.
pub mod reshape;
/// Method and path routing, and downstream target construction.
pub mod route;
/// The multipart field table and its translation into the canonical form.
pub mod translate;
