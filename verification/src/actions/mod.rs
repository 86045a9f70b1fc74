pub mod types;
pub mod manager;

pub use manager::ActionManager;
pub mod processor;
