//! The decisions that the server's request handlers make between their
//! database reads: what is refused, with which message, and what is scheduled.
//! Each request runs as a sequence of steps (`founding`, `production`,
//! `unit_requests`, `organization_requests`): a step takes the outcome of the
//! last operation and gives the next state and the next operation.
pub mod checks;
pub mod scheduling;
pub mod hamlet;
pub mod organization;
pub mod founding;
pub mod production;
pub mod unit_requests;
pub mod organization_requests;
