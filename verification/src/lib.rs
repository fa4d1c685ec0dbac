//! Client core for a Nextcloud-style OCS REST API.
//!
//! The crate covers the authenticated request/response core: credential
//! handling, request construction against a fixed base URL, query-string
//! encoding, response-envelope decoding, and a layered error model. The
//! network itself is left to an unverified front end that executes the
//! request descriptors this library builds and hands the response bodies
//! back for decoding.

pub mod error;
pub mod json;
pub mod query;
pub mod client;
pub mod ocs;
pub mod deck;

pub use error::NextcloudApiError;
pub use json::Json;
pub use client::{NextcloudCredentials, NextcloudApiClient, ApiRequest, HttpMethod};
pub use ocs::{ApiResponse, ApiResponseMeta, VersionData, CapabilityData, UserList, api_decode, ocs_decode};
pub use deck::{DeckApiErrorResponse, DeckApiResult, DeckApiError, Label, Permissions, Board, decode_boards};
