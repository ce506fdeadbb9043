pub mod crypto;
pub mod message;
pub mod oauth;
pub mod signature;
pub mod types;
