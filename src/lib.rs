pub mod constants;
pub mod derivation;
pub mod errors;
pub mod signature;
pub mod spl_token;
