//! A verified core for a contact-management service.
//!
//! Users register and log in; each user owns contacts, and each contact owns
//! addresses. Every operation is scoped to the acting user. The store is an
//! in-memory table of rows; request validation, session authentication,
//! ownership checks, search filtering and pagination are all verified.

pub mod address_service;
pub mod contact_service;
pub mod crypto;
pub mod errors;
pub mod models;
pub mod store;
pub mod text;
pub mod token;
pub mod user_service;
pub mod validation;
