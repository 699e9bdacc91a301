pub mod error;
pub mod validator;
pub mod quorum;
pub mod consensus;
pub mod client;
pub mod guard;
