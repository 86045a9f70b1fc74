//! The rules of an organization's population: housing capacity, when it
//! grows, when a named unit emerges, and where a newcomer settles.
pub mod rules;
pub mod tick;
