//! Passwords: Argon2id hashes in PHC string format.
pub mod password;
