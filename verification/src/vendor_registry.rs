//! Registry of the vendors that may receive loan funds, with an
//! admin-driven approval lifecycle.
pub mod errors;
pub mod safe_math;
pub mod types;
pub mod contract;

pub use self::errors::Error as VendorRegistryError;
