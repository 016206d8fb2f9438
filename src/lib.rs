//! Client library for a provider's text-message and one-time-passcode HTTP APIs.
//!
//! Phone numbers are validated before they can reach the network, and every
//! response is classified into a typed payload or a typed error.

pub mod error;
pub mod phone;
pub mod request;
pub mod sms;
pub mod verify;

pub use error::{ClientError, ParseError};
pub use phone::{Phone, RawPhone};
