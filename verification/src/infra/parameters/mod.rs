pub mod secrets;
pub mod resolve;
