//! Cursor-paginated user listing: opaque continuation tokens, keyset page
//! planning and page assembly, together with the user validation rules and
//! the plain data types of the service around them.

pub mod bank;
pub mod be_bytes;
pub mod config;
pub mod health;
pub mod keyset;
pub mod listing;
pub mod read_service;
pub mod rules;
pub mod text;
pub mod services;
pub mod timestamp;
pub mod token;
pub mod user;
pub mod validation;
