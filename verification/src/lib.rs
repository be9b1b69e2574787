//! A verified core for a Modrinth mod-hosting client: facet-filter query
//! building, JSON response decoding into fixed models, and the selection
//! rules the command handlers apply to decoded responses.
pub mod dirs;
pub mod errors;
pub mod decode;
pub mod facet;
pub mod handlers;
pub mod json;
pub mod models;
pub mod output;
pub mod urls;

pub use errors::ClientError;
