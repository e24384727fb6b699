pub mod academy;
pub mod contact;
pub mod contact_proofs;
