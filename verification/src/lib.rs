pub mod decimal;
pub mod description;
pub mod errors;
pub mod loader;
pub mod sequence;
pub mod steps;

pub use description::VmDescription;
pub use errors::ProvisionError;
