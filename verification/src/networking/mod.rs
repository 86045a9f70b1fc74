pub mod session;

pub use session::SessionTable;
pub mod network_server;
pub mod rooms;
