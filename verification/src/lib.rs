//! Verified core of a nail-salon booking service: the domain's names and
//! state changes, slot planning, payment and refund decisions, and the
//! cryptographic handling of social identities and tokens.

pub mod common;
pub mod text;
pub mod time;
pub mod models;
pub mod booking;
pub mod slots;
pub mod ids;
pub mod gateway;
pub mod payment;
pub mod crypto;
pub mod auth;
pub mod config;
pub mod social;
pub mod requests;
pub mod stripe;
