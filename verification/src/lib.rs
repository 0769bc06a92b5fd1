//! Verified core of an appointment-booking platform: configuration defaults,
//! gateway admission and routing, account rules, the booking saga and the
//! notification records that follow it.

pub mod text;
pub mod errors;
pub mod roles;
pub mod ids;
pub mod numbers;
pub mod config;
pub mod json;
pub mod gateway;
pub mod auth;
pub mod time;
pub mod qr;
pub mod notification;
pub mod appointment;
pub mod user;
pub mod laws;
