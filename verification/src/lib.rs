//! Verified core of the Alinea backend: task workflow, tokens, profile
//! definitions, pipeline planning and the small policy helpers around them.

pub mod text;
pub mod task_state;
pub mod crypto;
pub mod guide_token;
pub mod errors;
pub mod files;
pub mod config;
pub mod json;
pub mod profile_schema;
pub mod models;
pub mod projects;
pub mod profile_compiler;
pub mod auth;
pub mod visibility;
pub mod seed;
pub mod handoff;
pub mod pipeline;
pub mod identity;
pub mod keystore;
pub mod usage;
pub mod session;
pub mod statements;
pub mod profile_admin;
