//! Money arithmetic, fees, currency conversion, yield distribution and the
//! account-security rules of a community savings platform.
//!
//! The finance engine: `decimal`, `currency`, `rates`, `oracle`, `converter`,
//! `fees`, `yield_tracker`, `distributor`, `aave`, `settlement`, `revenue` and
//! `pipeline`, configured by `config`.
//!
//! The accounts service: `auth` (registration, OTPs, sign-in, reset, refresh),
//! `codes` (OTP and token rules), `hashing`, `users`, `errors`, `payments`,
//! `grpc` and `web`, configured by `service_config`.
//!
//! Shared: `text`, `clock` and `entropy`.

pub mod text;
pub mod clock;
pub mod entropy;

pub mod decimal;
pub mod currency;
pub mod config;
pub mod rates;
pub mod oracle;
pub mod converter;
pub mod fees;
pub mod yield_tracker;
pub mod distributor;
pub mod aave;
pub mod settlement;
pub mod revenue;
pub mod pipeline;

pub mod service_config;
pub mod errors;
pub mod codes;
pub mod hashing;
pub mod users;
pub mod auth;
pub mod payments;
pub mod grpc;
pub mod web;
