//! What each endpoint of the service answers.

pub mod health_check;
pub mod reply;
pub mod subscriptions;

pub use health_check::health_check;
pub use reply::Reply;
pub use subscriptions::FormData;
