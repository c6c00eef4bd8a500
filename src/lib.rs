//! Newsletter subscription service: validation of subscriber input, the
//! decisions of the subscription endpoint and the rows it stores.

pub mod domain;
pub mod subscriptions;
pub mod validation;

pub use subscriptions::FormData;
