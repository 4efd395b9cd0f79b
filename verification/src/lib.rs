//! Request-building, schema and streaming logic of an OpenAI API client, with contracts.

pub mod chunk;
pub mod client;
pub mod error;
pub mod helpers;
pub mod json;
pub mod keyed;
pub mod legacy;
pub mod message;
pub mod models;
pub mod output;
pub mod payload;
pub mod raw_schema;
pub mod registry;
pub mod resources;
pub mod responses;
pub mod sse;
pub mod struct_schema;
pub mod text;
pub mod tool;
