pub mod contact;
pub mod homepage;
