pub mod clock;
pub mod json;
pub mod router;
pub mod shared;
pub mod store;
