//! Companies, their members, and the roles and permissions of accounts.
pub mod types;
pub mod company;
