//! A client library for the SendGrid mail send API: the message model, its two
//! wire formats, and the rules by which a response becomes a result.

pub mod client;
pub mod error;
pub mod fields;
pub mod form;
pub mod json;
pub mod mail;
pub mod raw;
pub mod transport;
pub mod v3;

pub use client::SGClient;
pub use error::{SendgridError, SendgridResult};
pub use mail::{Destination, Mail};
