//! A client library for a cloud object store: the bearer-token cache that every
//! request draws on, and the request shapes of the object operations.

pub mod metadata_token;
pub mod token_laws;
pub mod object;
