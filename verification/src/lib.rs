//! A registry mapping a closed set of network/HTTP failure categories to a
//! fixed numeric code space, with a total reverse mapping that falls back to
//! an open `Unknown` variant, and a one-line description for every category.

pub mod decimal;
pub mod device;
pub mod errors;

pub use decimal::i32_to_decimal;
pub use device::Insets;
pub use device::Orientation;
pub use device::Outline;
pub use device::UserAgentMetadata;
pub use errors::HttpError;
