//! Request construction, signing and response resolution for an exchange's
//! authenticated REST API.

pub mod account;
pub mod client;
pub mod coin_futures;
pub mod encode;
pub mod model;
pub mod request;
pub mod response;
pub mod sign;
pub mod text;
