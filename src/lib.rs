//! A newsletter service: a liveness probe and a subscription form whose
//! input is validated before a row is written.
pub mod configuration;
pub mod health_check;
pub mod response;
pub mod subscriptions;

pub use health_check::healt_check;
pub use subscriptions::{subscribe, FormData};
