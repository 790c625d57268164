//! A minimal user-credential store: registration with salted password
//! hashes, opaque per-user session tokens, and token-based verification
//! against a persistent table of user records.

pub mod errors;
pub mod hashing;
pub mod records;
pub mod store;
pub mod token;

pub use errors::AuthError;
pub use records::{CreateUser, PublicUser, User};
pub use store::{create_user, query_users, verify_user};
