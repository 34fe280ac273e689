pub mod channel;
pub mod credentials;
pub mod errors;
pub mod frames;
pub mod json;
pub mod message;
pub mod session;
pub mod textfmt;
